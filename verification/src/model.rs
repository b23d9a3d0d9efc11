//! The orchestration state machine as mathematics: what each lifecycle signal
//! does to the state, and which effects it asks for.

use vstd::prelude::*;
use crate::effect::{Availability, Callback, Effect};
use crate::event::{UserEvent, WindowEvent};
use crate::size::clamp_dimension;

verus! {

/// The state of the orchestrator: the window slot, the bundle slot, the
/// suspend counter, and whether the exit signal has been seen.
pub struct State<W, G> {
    /// The window handle, once there is one.
    pub window: Option<W>,
    /// The graphics bundle, while one is installed.
    pub wgpu: Option<G>,
    /// How many suspend signals have been handled.
    pub suspend_count: u64,
    /// The loop is exiting.
    pub exiting: bool,
}

/// A signal from the host event loop.
#[derive(Clone, Debug, PartialEq, Eq)]
pub enum Signal<W, C, G> {
    /// The window surface has become usable. `created` is the window that
    /// the host made for this signal, if it made one.
    Resumed { created: Option<W> },
    /// The window surface is going away.
    Suspended,
    /// The loop is shutting down.
    Exiting,
    /// The system is low on memory.
    MemoryWarning,
    /// New events are about to be processed.
    NewEvents,
    /// The loop is about to block and wait.
    AboutToWait,
    /// An event of the window.
    Window(WindowEvent),
    /// A message from the proxy channel.
    User(UserEvent<C, G>),
    /// An event of an input device.
    Device,
}

impl<W, G> State<W, G> {
    /// A bundle is never present without its window.
    pub open spec fn wf(self) -> bool {
        self.wgpu is Some ==> self.window is Some
    }

    /// The state before any signal: no window, no bundle, counter at zero.
    pub open spec fn init() -> Self {
        State { window: None, wgpu: None, suspend_count: 0, exiting: false }
    }

    /// What a context made from this state holds.
    pub open spec fn availability(self) -> Availability {
        Availability { window: self.window is Some, wgpu: self.wgpu is Some }
    }

    /// The dispatch of `callback` with a context made from this state.
    pub open spec fn notify(self, callback: Callback) -> Effect {
        Effect::Notify { callback, context: self.availability() }
    }

    /// A window has to be made before the next resume signal is handled.
    pub open spec fn needs_window(self) -> bool {
        self.window is None
    }

    /// Resume: the window that is there stays; `created` fills an empty slot.
    pub open spec fn resumed(self, created: Option<W>) -> Self {
        State { window: if self.window is Some { self.window } else { created }, ..self }
    }

    /// Resume always launches a build under the current counter, and calls
    /// nothing: the application hears of the resume when the bundle is ready.
    pub open spec fn resumed_effects(self) -> Seq<Effect> {
        seq![Effect::LaunchBuild { suspend_count: self.suspend_count }]
    }

    /// Suspend: the bundle is destroyed and the counter goes up by one.
    pub open spec fn suspended(self) -> Self {
        State { wgpu: None, suspend_count: (self.suspend_count + 1) as u64, ..self }
    }

    /// Suspend tells the application, with the bundle withheld.
    pub open spec fn suspended_effects(self) -> Seq<Effect> {
        seq![self.suspended().notify(Callback::Suspended)]
    }

    /// Exit: the state becomes terminal.
    pub open spec fn exited(self) -> Self {
        State { exiting: true, ..self }
    }

    /// The exit notification fires once.
    pub open spec fn exiting_effects(self) -> Seq<Effect> {
        if self.exiting {
            seq![]
        } else {
            seq![self.notify(Callback::Exiting)]
        }
    }

    /// A signal that changes nothing is forwarded to its callback.
    pub open spec fn forwarded(self, callback: Callback) -> Seq<Effect> {
        seq![self.notify(callback)]
    }

    /// The built-in handling of a window event, which comes before the
    /// event is forwarded.
    pub open spec fn builtin_effects(self, event: WindowEvent) -> Seq<Effect> {
        if self.wgpu is None {
            seq![]
        } else {
            match event {
                WindowEvent::Resized { width, height } => seq![
                    Effect::ConfigureSurface {
                        width: clamp_dimension(width),
                        height: clamp_dimension(height),
                    },
                    Effect::RequestRedraw,
                ],
                WindowEvent::RedrawRequested => seq![
                    Effect::Notify {
                        callback: Callback::Redraw,
                        context: Availability { window: true, wgpu: true },
                    },
                ],
                WindowEvent::Other => seq![],
            }
        }
    }

    /// A window event: nothing once the loop is exiting; else the built-in
    /// handling, then the generic window-event callback.
    pub open spec fn window_event_effects(self, event: WindowEvent) -> Seq<Effect> {
        if self.exiting {
            seq![]
        } else {
            self.builtin_effects(event).push(self.notify(Callback::WindowEvent))
        }
    }

    /// A device event: nothing once the loop is exiting; else forwarded.
    pub open spec fn device_event_effects(self) -> Seq<Effect> {
        if self.exiting {
            seq![]
        } else {
            self.forwarded(Callback::DeviceEvent)
        }
    }

    /// A ready bundle is installed in place of whatever was there.
    pub open spec fn installed(self, wgpu: G) -> Self {
        State { wgpu: Some(wgpu), ..self }
    }

    /// A message from the channel: a ready bundle is installed, a custom
    /// event changes nothing.
    pub open spec fn user_event<C>(self, event: UserEvent<C, G>) -> Self {
        match event {
            UserEvent::WgpuReady(wgpu) => self.installed(wgpu),
            UserEvent::Custom(_) => self,
        }
    }

    /// A ready bundle resumes the application, with window and bundle, and
    /// asks for a redraw; a custom event goes to the user-event callback.
    pub open spec fn user_event_effects<C>(self, event: UserEvent<C, G>) -> Seq<Effect> {
        match event {
            UserEvent::WgpuReady(wgpu) => seq![
                self.installed(wgpu).notify(Callback::Resumed),
                Effect::RequestRedraw,
            ],
            UserEvent::Custom(_) => self.forwarded(Callback::UserEvent),
        }
    }

    /// The payload that goes to the user-event callback.
    pub open spec fn user_event_payload<C>(event: UserEvent<C, G>) -> Option<C> {
        match event {
            UserEvent::WgpuReady(_) => None,
            UserEvent::Custom(payload) => Some(payload),
        }
    }

    /// Whether `signal` may be handled in this state. A resume needs a
    /// window, kept or created; a suspend needs room in the counter; a
    /// ready bundle needs its window.
    pub open spec fn enabled<C>(self, signal: Signal<W, C, G>) -> bool {
        match signal {
            Signal::Resumed { created } => self.window is Some || created is Some,
            Signal::Suspended => self.suspend_count < u64::MAX,
            Signal::User(UserEvent::WgpuReady(_)) => self.window is Some,
            _ => true,
        }
    }

    /// The state after `signal`.
    pub open spec fn step<C>(self, signal: Signal<W, C, G>) -> Self {
        match signal {
            Signal::Resumed { created } => self.resumed(created),
            Signal::Suspended => self.suspended(),
            Signal::Exiting => self.exited(),
            Signal::User(event) => self.user_event(event),
            _ => self,
        }
    }

    /// The effects of `signal`, in order.
    pub open spec fn effects<C>(self, signal: Signal<W, C, G>) -> Seq<Effect> {
        match signal {
            Signal::Resumed { .. } => self.resumed_effects(),
            Signal::Suspended => self.suspended_effects(),
            Signal::Exiting => self.exiting_effects(),
            Signal::MemoryWarning => self.forwarded(Callback::MemoryWarning),
            Signal::NewEvents => self.forwarded(Callback::NewEvents),
            Signal::AboutToWait => self.forwarded(Callback::AboutToWait),
            Signal::Window(event) => self.window_event_effects(event),
            Signal::User(event) => self.user_event_effects(event),
            Signal::Device => self.device_event_effects(),
        }
    }

    /// The state after all of `signals`, handled in order.
    pub open spec fn run<C>(self, signals: Seq<Signal<W, C, G>>) -> Self
        decreases signals.len(),
    {
        if signals.len() == 0 {
            self
        } else {
            self.run(signals.drop_last()).step(signals.last())
        }
    }

    /// Whether each of `signals` may be handled when its turn comes.
    pub open spec fn admits<C>(self, signals: Seq<Signal<W, C, G>>) -> bool
        decreases signals.len(),
    {
        signals.len() == 0 || (self.admits(signals.drop_last()) && self.run(
            signals.drop_last(),
        ).enabled(signals.last()))
    }
}

} // verus!
