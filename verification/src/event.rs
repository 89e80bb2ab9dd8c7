use vstd::prelude::*;

verus! {

/// A window event, reduced to the parts the loop's decisions read.
#[derive(Copy, Clone, Debug, PartialEq, Eq, Structural)]
pub enum LoopEvent {
    /// The window was asked to close.
    CloseRequested,
    /// A key event: whether the key is Escape, and whether it was pressed.
    KeyboardInput { is_escape: bool, pressed: bool },
    /// All window events have been handed out for this iteration.
    MainEventsCleared,
    /// The window should be redrawn.
    RedrawRequested,
    /// Any other event.
    Other,
}

/// What the event loop does in response to one event.
#[derive(Copy, Clone, Debug, PartialEq, Eq, Structural)]
pub enum LoopAction {
    /// Leave the event loop.
    Exit,
    /// Ask the window for a redraw.
    RequestRedraw,
    /// Draw one frame.
    DrawFrame,
    /// Nothing to do.
    Continue,
}

/// Whether an event asks the application to quit: a close request, or
/// Escape going down.
pub open spec fn spec_is_exit(event: LoopEvent) -> bool {
    event is CloseRequested || event matches LoopEvent::KeyboardInput {
        is_escape: true,
        pressed: true,
    }
}

/// The decision of the plain event loop: it exits on a close request or on
/// Escape, and otherwise does nothing.
pub fn main_loop_action(event: &LoopEvent) -> (action: LoopAction)
    ensures
        action is Exit <==> spec_is_exit(*event),
        action is Exit || action is Continue,
{
    match event {
        LoopEvent::CloseRequested => LoopAction::Exit,
        LoopEvent::KeyboardInput { is_escape: true, pressed: true } => LoopAction::Exit,
        _ => LoopAction::Continue,
    }
}

/// The decision of the drawing event loop: as the plain loop, but once the
/// events of an iteration are out it asks for a redraw, and on a redraw
/// request it draws a frame.
pub fn draw_loop_action(event: &LoopEvent) -> (action: LoopAction)
    ensures
        action is Exit <==> spec_is_exit(*event),
        action is RequestRedraw <==> *event is MainEventsCleared,
        action is DrawFrame <==> *event is RedrawRequested,
{
    match event {
        LoopEvent::CloseRequested => LoopAction::Exit,
        LoopEvent::KeyboardInput { is_escape: true, pressed: true } => LoopAction::Exit,
        LoopEvent::MainEventsCleared => LoopAction::RequestRedraw,
        LoopEvent::RedrawRequested => LoopAction::DrawFrame,
        _ => LoopAction::Continue,
    }
}

} // verus!
