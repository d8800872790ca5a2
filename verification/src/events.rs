//! The event-pump policy: which window events end the application. The
//! host's blocking event loop hands each notification to this decision
//! function and obeys the directive it returns.

use vstd::prelude::*;

verus! {

/// The keys the exit policy distinguishes.
#[derive(Clone, Copy, Debug, PartialEq, Eq, Structural)]
pub enum KeyCode {
    Escape,
    Other,
}

/// A notification from the windowing collaborator, reduced to what the
/// exit policy reads.
#[derive(Clone, Copy, Debug, PartialEq, Eq, Structural)]
pub enum LoopEvent {
    /// The user asked to close the window.
    CloseRequested,
    /// A key changed state; `pressed` is false on release.
    KeyboardInput { key: KeyCode, pressed: bool },
    /// Anything else the pump delivers.
    Other,
}

/// What the event loop should do next.
#[derive(Clone, Copy, Debug, PartialEq, Eq, Structural)]
pub enum FlowDirective {
    /// Block until the next event.
    Wait,
    /// Leave the loop and begin teardown.
    Exit,
}

/// The application exits on a close request or on a pressed escape key.
pub open spec fn spec_should_exit(e: LoopEvent) -> bool {
    ||| e is CloseRequested
    ||| (e matches LoopEvent::KeyboardInput { key, pressed } && key is Escape && pressed)
}

/// Decide the control flow for one event.
pub fn handle_event(event: &LoopEvent) -> (r: FlowDirective)
    ensures
        r is Exit <==> spec_should_exit(*event),
        r is Wait <==> !spec_should_exit(*event),
{
    match event {
        LoopEvent::CloseRequested => FlowDirective::Exit,
        LoopEvent::KeyboardInput { key: KeyCode::Escape, pressed: true } => FlowDirective::Exit,
        _ => FlowDirective::Wait,
    }
}

} // verus!
