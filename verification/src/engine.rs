//! The event loop's decisions.
use vstd::prelude::*;

verus! {

pub const PROGRAM_NAME: &'static str = "rustvulkantest";

pub const ENGINE_NAME: &'static str = "rustvulkan";

pub const WINDOW_TITLE: &'static str = "Ash - Example";

/// What the event loop tells apart among the events of the window system.
#[derive(Clone, Copy, PartialEq, Eq, Structural, Debug)]
pub enum Event {
    /// The window was closed.
    Closed,
    /// The escape key was pressed or released.
    Escape,
    /// Anything else.
    Other,
}

/// What the event loop does next.
#[derive(Clone, Copy, PartialEq, Eq, Structural, Debug)]
pub enum ControlFlow {
    /// Render a frame and go on.
    Continue,
    /// Leave the loop without rendering.
    Break,
}

/// The engine: a window and the renderer that draws into it.
pub struct Engine {}

impl Engine {
    /// Decides on one event: closing the window or touching the escape key
    /// ends the loop, every other event is followed by a frame.
    pub fn main_loop(event: Event) -> (flow: ControlFlow)
        ensures
            flow == match event {
                Event::Closed => ControlFlow::Break,
                Event::Escape => ControlFlow::Break,
                Event::Other => ControlFlow::Continue,
            },
    {
        match event {
            Event::Closed => ControlFlow::Break,
            Event::Escape => ControlFlow::Break,
            _ => ControlFlow::Continue,
        }
    }
}

} // verus!
