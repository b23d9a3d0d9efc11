//! The context handed to application callbacks: a borrowed snapshot that is
//! made for one invocation and never stored.

use vstd::prelude::*;
use crate::effect::Availability;

verus! {

/// What a callback may look at. It owns nothing.
pub struct Context<'a, E, W, G> {
    /// The running event loop.
    pub event_loop: &'a E,
    /// The current window. `None` while there is no window yet.
    pub window: Option<&'a W>,
    /// The current graphics bundle. `None` while it is not built yet, or
    /// after it was destroyed.
    pub wgpu: Option<&'a G>,
}

impl<'a, E, W, G> Context<'a, E, W, G> {
    /// A view of the given references.
    pub fn new(event_loop: &'a E, window: Option<&'a W>, wgpu: Option<&'a G>) -> (ctxt: Self)
        ensures
            ctxt.event_loop == event_loop,
            ctxt.window == window,
            ctxt.wgpu == wgpu,
    {
        Context { event_loop, window, wgpu }
    }

    /// Which of the window and the bundle this context holds.
    pub open spec fn spec_availability(&self) -> Availability {
        Availability { window: self.window is Some, wgpu: self.wgpu is Some }
    }

    /// Which of the window and the bundle this context holds.
    #[verifier::when_used_as_spec(spec_availability)]
    pub fn availability(&self) -> (a: Availability)
        ensures
            a == self.spec_availability(),
    {
        Availability { window: self.window.is_some(), wgpu: self.wgpu.is_some() }
    }
}

} // verus!
