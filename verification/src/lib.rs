//! Lifecycle orchestration for one window and its graphics bundle.
//!
//! A host event loop reports lifecycle signals: resume, suspend, window
//! events, messages from the proxy channel. The [`Orchestrator`] owns the
//! window and the graphics bundle across them and answers each signal with
//! the effects to carry out, in order: outside work such as launching a build
//! or reconfiguring the surface, and the application callbacks to invoke. The
//! [`Builder`] does the same for the steps by which a bundle is negotiated
//! from a window.
//!
//! Nothing here touches a window system or a graphics device: window,
//! bundle and events are the host's, and the library carries them.

pub mod builder;
pub mod bundle;
pub mod context;
pub mod effect;
pub mod event;
pub mod laws;
pub mod model;
pub mod orchestrator;
pub mod size;

pub use builder::{Backend, BuildError, BuildOutcome, BuildStep, Builder};
pub use bundle::Wgpu;
pub use context::Context;
pub use effect::{Availability, Callback, Effect};
pub use event::{custom_send_result, EventLoopClosed, UserEvent, WindowEvent};
pub use model::{Signal, State};
pub use orchestrator::Orchestrator;
pub use size::{effective_size, MIN_DIMENSION};
