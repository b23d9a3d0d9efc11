//! The messages that travel through the event proxy into the event loop, and
//! the window events that the orchestrator tells apart.

use vstd::prelude::*;

verus! {

/// A message on the proxy channel. Two kinds share it: the graphics bundle
/// that a finished build delivers, and the application's own events.
#[derive(Clone, Debug, PartialEq, Eq)]
pub enum UserEvent<C, G> {
    /// A freshly built graphics bundle.
    WgpuReady(G),
    /// An application-defined event, opaque to the library.
    Custom(C),
}

impl<C, G> UserEvent<C, G> {
    /// Wraps an application event for the channel.
    pub fn custom(event: C) -> (message: Self)
        ensures
            message == UserEvent::<C, G>::Custom(event),
    {
        UserEvent::Custom(event)
    }

    /// Whether this message is an application event.
    pub fn is_custom(&self) -> (custom: bool)
        ensures
            custom == (self is Custom),
    {
        match self {
            UserEvent::Custom(_) => true,
            UserEvent::WgpuReady(_) => false,
        }
    }
}

/// The error of a send into an event loop that has shut down. It holds the
/// event that could not be delivered.
#[derive(Clone, Copy, Debug, PartialEq, Eq, Hash)]
pub struct EventLoopClosed<C>(pub C);

/// What the sender of a custom event is told, given what the channel said:
/// `Ok` when the message was taken, and when it was handed back because the
/// loop has shut down, an error that returns the event to the caller.
///
/// A sender only ever puts custom events on the channel, so only a custom
/// event can come back.
pub fn custom_send_result<C, G>(outcome: Result<(), UserEvent<C, G>>) -> (result: Result<(), EventLoopClosed<C>>)
    requires
        outcome matches Err(message) ==> message is Custom,
    ensures
        outcome is Ok ==> result is Ok,
        outcome matches Err(UserEvent::Custom(event)) ==> result == Err::<(), _>(EventLoopClosed(event)),
{
    match outcome {
        Ok(()) => Ok(()),
        Err(UserEvent::Custom(event)) => Err(EventLoopClosed(event)),
        Err(UserEvent::WgpuReady(_)) => vstd::pervasive::unreached(),
    }
}

/// A window event, as far as the built-in handling tells events apart.
#[derive(Clone, Copy, Debug, PartialEq, Eq, Structural)]
pub enum WindowEvent {
    /// The window's size has changed to `width` x `height`, either of which
    /// may be zero.
    Resized { width: u32, height: u32 },
    /// The window asks to be redrawn.
    RedrawRequested,
    /// Any other window event. The library has no handling of its own for it.
    Other,
}

} // verus!
