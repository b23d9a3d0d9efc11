//! What the orchestrator asks its host to do: outside work to perform and
//! application callbacks to invoke, in order.

use vstd::prelude::*;

verus! {

/// The hooks of the application callback interface that the orchestrator
/// dispatches to.
#[derive(Clone, Copy, Debug, PartialEq, Eq, Structural)]
pub enum Callback {
    Resumed,
    Suspended,
    Exiting,
    MemoryWarning,
    NewEvents,
    AboutToWait,
    WindowEvent,
    UserEvent,
    DeviceEvent,
    Redraw,
}

/// Which parts of the context a callback is handed.
#[derive(Clone, Copy, Debug, PartialEq, Eq, Structural)]
pub struct Availability {
    /// The window handle is handed out.
    pub window: bool,
    /// The graphics bundle is handed out.
    pub wgpu: bool,
}

/// One thing for the host to do. A transition returns its effects in the
/// order in which they are to be carried out.
#[derive(Clone, Copy, Debug, PartialEq, Eq, Structural)]
pub enum Effect {
    /// Start building a graphics bundle for the current window, tagged with
    /// the given suspend counter.
    LaunchBuild { suspend_count: u64 },
    /// Reconfigure the presentable surface of the current bundle.
    ConfigureSurface { width: u32, height: u32 },
    /// Ask the window for a redraw.
    RequestRedraw,
    /// Invoke an application callback with a context that holds what
    /// `context` says.
    Notify { callback: Callback, context: Availability },
}

} // verus!
