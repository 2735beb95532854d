//! The lifecycle controller: what the window system's events mean for the
//! strip.

use vstd::prelude::*;
use crate::state::BarState;

verus! {

/// The code of the X11 core event `KeyPress`.
pub const KEY_PRESS: u8 = 2;

/// The code of the X11 core event `Expose`.
pub const EXPOSE: u8 = 12;

/// What the controller does after an event.
#[derive(Clone, Copy, Debug, PartialEq, Eq, Structural)]
pub enum LifecycleAction {
    /// A redraw was asked for: wake the draw loop and wait for the next
    /// event.
    Redraw,
    /// Nothing was done: wait for the next event.
    Ignore,
    /// The strip was closed: wake the draw loop, wait for it to leave, and
    /// leave.
    Shutdown,
}

/// The code of an event: its response type without the bit that marks an
/// event which another client has sent.
pub open spec fn event_code(response_type: u8) -> u8 {
    response_type & 0x7f
}

/// What follows from an event: an exposure asks for a redraw, the end of
/// the event stream closes the strip, and nothing else matters.
pub open spec fn spec_action(event: Option<u8>) -> LifecycleAction {
    match event {
        None => LifecycleAction::Shutdown,
        Some(response_type) => if event_code(response_type) == EXPOSE {
            LifecycleAction::Redraw
        } else {
            LifecycleAction::Ignore
        },
    }
}

/// Takes one event of the window system: the response type of the event
/// that arrived, or `None` when the stream of events has ended. The caller
/// holds the state locked.
pub fn handle_event(bar_state: &mut BarState, event: Option<u8>) -> (action: LifecycleAction)
    ensures
        action == spec_action(event),
        final(bar_state)@ == match spec_action(event) {
            LifecycleAction::Redraw => old(bar_state)@.request(),
            LifecycleAction::Ignore => old(bar_state)@,
            LifecycleAction::Shutdown => old(bar_state)@.close(),
        },
{
    match event {
        None => {
            bar_state.close();
            LifecycleAction::Shutdown
        },
        Some(response_type) => {
            let code: u8 = response_type & !0x80;
            assert(response_type & !0x80u8 == response_type & 0x7f) by (bit_vector);
            if code == EXPOSE {
                bar_state.request_redraw();
                LifecycleAction::Redraw
            } else {
                LifecycleAction::Ignore
            }
        },
    }
}

} // verus!
