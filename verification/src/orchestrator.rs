//! The orchestrator: the owner of the window and of the graphics bundle. The
//! host hands it each lifecycle signal and carries out the effects that it
//! returns.

use vstd::prelude::*;
use crate::context::Context;
use crate::effect::{Availability, Callback, Effect};
use crate::event::{UserEvent, WindowEvent};
use crate::model::{Signal, State};
use crate::size::effective_size;

verus! {

/// The orchestration state machine. `W` is the window handle and `G` the
/// graphics bundle; both are carried, never inspected.
pub struct Orchestrator<W, G> {
    window: Option<W>,
    wgpu: Option<G>,
    suspend_count: u64,
    exiting: bool,
}

impl<W, G> View for Orchestrator<W, G> {
    type V = State<W, G>;

    closed spec fn view(&self) -> State<W, G> {
        State {
            window: self.window,
            wgpu: self.wgpu,
            suspend_count: self.suspend_count,
            exiting: self.exiting,
        }
    }
}

impl<W, G> Orchestrator<W, G> {
    #[verifier::type_invariant]
    spec fn well_formed(self) -> bool {
        self@.wf()
    }

    /// An orchestrator that has seen no signal yet.
    pub fn new() -> (orchestrator: Self)
        ensures
            orchestrator@ == State::<W, G>::init(),
    {
        Orchestrator { window: None, wgpu: None, suspend_count: 0, exiting: false }
    }

    /// The current window, if there is one.
    pub fn window(&self) -> (window: Option<&W>)
        ensures
            self@.wf(),
            window is Some <==> self@.window is Some,
            window matches Some(w) ==> self@.window == Some(*w),
    {
        proof {
            use_type_invariant(self);
        }
        self.window.as_ref()
    }

    /// The current graphics bundle, if one is installed.
    pub fn wgpu(&self) -> (wgpu: Option<&G>)
        ensures
            self@.wf(),
            wgpu is Some <==> self@.wgpu is Some,
            wgpu matches Some(g) ==> self@.wgpu == Some(*g),
    {
        proof {
            use_type_invariant(self);
        }
        self.wgpu.as_ref()
    }

    /// How many suspend signals have been handled.
    pub fn suspend_count(&self) -> (count: u64)
        ensures
            count == self@.suspend_count,
    {
        self.suspend_count
    }

    /// Whether the exit signal has been seen.
    pub fn is_exiting(&self) -> (exiting: bool)
        ensures
            exiting == self@.exiting,
    {
        self.exiting
    }

    /// Whether the host has to make a window for the next resume signal.
    /// That is so exactly while there is none.
    pub fn needs_window(&self) -> (needed: bool)
        ensures
            needed == self@.needs_window(),
    {
        self.window.is_none()
    }

    /// What a context made now holds.
    pub fn availability(&self) -> (a: Availability)
        ensures
            self@.wf(),
            a == self@.availability(),
    {
        proof {
            use_type_invariant(self);
        }
        Availability { window: self.window.is_some(), wgpu: self.wgpu.is_some() }
    }

    /// The context for one callback invocation: the current window and
    /// bundle, borrowed.
    pub fn context<'a, E>(&'a self, event_loop: &'a E) -> (ctxt: Context<'a, E, W, G>)
        ensures
            ctxt.event_loop == event_loop,
            ctxt.availability() == self@.availability(),
            ctxt.window matches Some(w) ==> self@.window == Some(*w),
            ctxt.wgpu matches Some(g) ==> self@.wgpu == Some(*g),
    {
        Context::new(event_loop, self.window.as_ref(), self.wgpu.as_ref())
    }

    /// Handles a resume signal. A window that exists is kept, and `created`
    /// is then dropped; without one, `created` becomes the window. A build
    /// is launched either way.
    pub fn resumed(&mut self, created: Option<W>) -> (effects: Vec<Effect>)
        requires
            old(self)@.window is Some || created is Some,
        ensures
            final(self)@ == old(self)@.resumed(created),
            final(self)@.wf(),
            final(self)@.window is Some,
            old(self)@.window is Some ==> final(self)@.window == old(self)@.window,
            effects@ == old(self)@.resumed_effects(),
    {
        proof {
            use_type_invariant(&*self);
        }
        if self.window.is_none() {
            self.window = created;
        }
        let mut effects: Vec<Effect> = Vec::new();
        effects.push(Effect::LaunchBuild { suspend_count: self.suspend_count });
        effects
    }

    /// Handles a suspend signal: the bundle is destroyed, the counter goes
    /// up by one, and the application is told with the bundle withheld.
    pub fn suspended(&mut self) -> (effects: Vec<Effect>)
        requires
            old(self)@.suspend_count < u64::MAX,
        ensures
            final(self)@ == old(self)@.suspended(),
            final(self)@.wf(),
            final(self)@.wgpu is None,
            final(self)@.suspend_count == old(self)@.suspend_count + 1,
            effects@ == old(self)@.suspended_effects(),
    {
        self.wgpu = None;
        self.suspend_count = self.suspend_count + 1;
        let mut effects: Vec<Effect> = Vec::new();
        effects.push(
            Effect::Notify {
                callback: Callback::Suspended,
                context: Availability { window: self.window.is_some(), wgpu: false },
            },
        );
        effects
    }

    /// Handles the exit signal. The application is told the first time.
    pub fn exiting(&mut self) -> (effects: Vec<Effect>)
        ensures
            final(self)@ == old(self)@.exited(),
            final(self)@.wf(),
            effects@ == old(self)@.exiting_effects(),
    {
        proof {
            use_type_invariant(&*self);
        }
        let mut effects: Vec<Effect> = Vec::new();
        if !self.exiting {
            effects.push(self.notification(Callback::Exiting));
            self.exiting = true;
        }
        effects
    }

    /// Handles a memory warning: it is forwarded.
    pub fn memory_warning(&self) -> (effects: Vec<Effect>)
        ensures
            effects@ == self@.forwarded(Callback::MemoryWarning),
    {
        self.forward(Callback::MemoryWarning)
    }

    /// Handles the start of a batch of events: it is forwarded.
    pub fn new_events(&self) -> (effects: Vec<Effect>)
        ensures
            effects@ == self@.forwarded(Callback::NewEvents),
    {
        self.forward(Callback::NewEvents)
    }

    /// Handles the end of a batch of events: it is forwarded.
    pub fn about_to_wait(&self) -> (effects: Vec<Effect>)
        ensures
            effects@ == self@.forwarded(Callback::AboutToWait),
    {
        self.forward(Callback::AboutToWait)
    }

    /// Handles a window event. With a bundle installed, a resize
    /// reconfigures the surface at the clamped size and asks for a redraw,
    /// and a redraw request calls the redraw callback. Then, bundle or not,
    /// the event goes to the generic window-event callback. Once the loop is
    /// exiting nothing is done.
    pub fn window_event(&self, event: WindowEvent) -> (effects: Vec<Effect>)
        ensures
            effects@ == self@.window_event_effects(event),
    {
        proof {
            use_type_invariant(self);
        }
        let mut effects: Vec<Effect> = Vec::new();
        if self.exiting {
            return effects;
        }
        if self.wgpu.is_some() {
            match event {
                WindowEvent::Resized { width, height } => {
                    let (w, h) = effective_size(width, height);
                    effects.push(Effect::ConfigureSurface { width: w, height: h });
                    effects.push(Effect::RequestRedraw);
                },
                WindowEvent::RedrawRequested => {
                    effects.push(self.notification(Callback::Redraw));
                },
                WindowEvent::Other => {},
            }
        }
        effects.push(self.notification(Callback::WindowEvent));
        effects
    }

    /// Handles a message from the proxy channel. A ready bundle replaces the
    /// current one; the application is resumed with window and bundle, and a
    /// redraw is asked for. A custom event is handed back, to go to the
    /// user-event callback as it came.
    pub fn user_event<C>(&mut self, event: UserEvent<C, G>) -> (dispatch: (Vec<Effect>, Option<C>))
        requires
            event is WgpuReady ==> old(self)@.window is Some,
        ensures
            final(self)@ == old(self)@.user_event(event),
            final(self)@.wf(),
            event matches UserEvent::WgpuReady(wgpu) ==> final(self)@.wgpu == Some(wgpu),
            dispatch.0@ == old(self)@.user_event_effects(event),
            dispatch.1 == State::<W, G>::user_event_payload(event),
    {
        proof {
            use_type_invariant(&*self);
        }
        let mut effects: Vec<Effect> = Vec::new();
        match event {
            UserEvent::WgpuReady(wgpu) => {
                self.wgpu = Some(wgpu);
                effects.push(self.notification(Callback::Resumed));
                effects.push(Effect::RequestRedraw);
                (effects, None)
            },
            UserEvent::Custom(payload) => {
                effects.push(self.notification(Callback::UserEvent));
                (effects, Some(payload))
            },
        }
    }

    /// Handles a device event: it is forwarded, unless the loop is exiting.
    pub fn device_event(&self) -> (effects: Vec<Effect>)
        ensures
            effects@ == self@.device_event_effects(),
    {
        if self.exiting {
            Vec::new()
        } else {
            self.forward(Callback::DeviceEvent)
        }
    }

    /// Handles any signal, as the method named after it does.
    pub fn handle<C>(&mut self, signal: Signal<W, C, G>) -> (dispatch: (Vec<Effect>, Option<C>))
        requires
            old(self)@.enabled(signal),
        ensures
            final(self)@ == old(self)@.step(signal),
            final(self)@.wf(),
            dispatch.0@ == old(self)@.effects(signal),
            dispatch.1 == (match signal {
                Signal::User(event) => State::<W, G>::user_event_payload(event),
                _ => None,
            }),
    {
        proof {
            use_type_invariant(&*self);
        }
        match signal {
            Signal::Resumed { created } => (self.resumed(created), None),
            Signal::Suspended => (self.suspended(), None),
            Signal::Exiting => (self.exiting(), None),
            Signal::MemoryWarning => (self.memory_warning(), None),
            Signal::NewEvents => (self.new_events(), None),
            Signal::AboutToWait => (self.about_to_wait(), None),
            Signal::Window(event) => (self.window_event(event), None),
            Signal::User(event) => self.user_event(event),
            Signal::Device => (self.device_event(), None),
        }
    }

    fn notification(&self, callback: Callback) -> (effect: Effect)
        ensures
            effect == self@.notify(callback),
    {
        Effect::Notify {
            callback,
            context: Availability { window: self.window.is_some(), wgpu: self.wgpu.is_some() },
        }
    }

    fn forward(&self, callback: Callback) -> (effects: Vec<Effect>)
        ensures
            effects@ == self@.forwarded(callback),
    {
        let mut effects: Vec<Effect> = Vec::new();
        effects.push(self.notification(callback));
        effects
    }
}

} // verus!
