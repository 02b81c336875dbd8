//! The events that handlers see, and what a handler answers.

use vstd::prelude::*;
use crate::window::WindowId;

verus! {

/// What happened to a window.
#[derive(Debug, Clone, Copy, PartialEq, Eq, Structural)]
pub enum WindowEventKind {
    /// The user asked to close the window.
    CloseRequested,
    /// The window is gone.
    Destroyed,
    /// The window has a new size, in pixels.
    Resized { width: u32, height: u32 },
}

/// An event of one window.
#[derive(Debug, Clone, Copy, PartialEq, Eq, Structural)]
pub struct WindowEvent {
    pub window_id: WindowId,
    pub kind: WindowEventKind,
}

/// An event as the context-wide handlers see it.
#[derive(Debug)]
pub enum Event<UserEvent> {
    /// A payload that some thread sent through a proxy, unchanged.
    UserEvent(UserEvent),
    /// An event of one window.
    WindowEvent(WindowEvent),
}

/// What a handler asks for after it has seen an event.
#[derive(Debug, Clone, Copy, PartialEq, Eq, Structural)]
pub struct EventHandlerOutput {
    /// Do not call this handler again.
    pub remove_handler: bool,
    /// Do not pass this event to the handlers that follow.
    pub stop_propagation: bool,
}

impl Default for EventHandlerOutput {
    fn default() -> (r: Self)
        ensures
            r == (EventHandlerOutput { remove_handler: false, stop_propagation: false }),
    {
        EventHandlerOutput { remove_handler: false, stop_propagation: false }
    }
}

} // verus!
