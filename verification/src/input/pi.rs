//! Pointer input from the raw events of input devices.

use vstd::pervasive::unreached;
use vstd::prelude::*;
use crate::input::{Input, PointerState, Reaction};

verus! {

/// The type of the events that a touch or a press sends.
pub const TOUCH_EVENT: u16 = 3;

/// An event as an input device reports it.
#[derive(Clone, Copy, Debug, PartialEq, Eq, Structural)]
pub struct RawEvent {
    /// The type of the event.
    pub kind: u16,
    /// What the event is about, within its type.
    pub code: u16,
    /// The value reported.
    pub value: i32,
}

/// One of `events` is of the touch type.
pub open spec fn touched(events: Seq<RawEvent>) -> bool {
    exists|i: int| 0 <= i < events.len() && #[trigger] events[i].kind == TOUCH_EVENT
}

/// The pointer of a touch screen, read from raw device events.
///
/// Such a source can tell whether the screen is touched, not where, and it
/// never asks for the main loop to end.
pub struct PiInput {
    mouse_down: bool,
}

impl Input for PiInput {
    type Event = RawEvent;

    closed spec fn view(&self) -> PointerState {
        PointerState { down: self.mouse_down, position: None, running: true }
    }

    open spec fn polled(state: PointerState, events: Seq<RawEvent>) -> PointerState {
        PointerState { down: touched(events), position: None, running: true }
    }

    open spec fn reaction(events: Seq<RawEvent>) -> Reaction {
        Reaction::Nothing
    }

    /// The pointer is down after a pass in which any device sent an event
    /// of the touch type, and up after a pass without one.
    fn update(&mut self, events: &[RawEvent]) -> (reaction: Reaction) {
        let mut touched_now = false;

        let mut i: usize = 0;
        while i < events.len()
            invariant_except_break
                i <= events@.len(),
                !touched_now,
                forall|j: int| 0 <= j < i ==> events@[j].kind != TOUCH_EVENT,
            ensures
                touched_now == touched(events@),
            decreases events@.len() - i,
        {
            if events[i].kind == TOUCH_EVENT {
                touched_now = true;
                break;
            }
            i += 1;
        }

        self.mouse_down = touched_now;
        Reaction::Nothing
    }

    fn is_mouse_down(&self) -> (down: bool) {
        self.mouse_down
    }

    /// The position is not tracked, so no state of this source admits the
    /// call.
    fn get_mouse_pos(&self) -> (pos: (usize, usize)) {
        unreached()
    }

    fn do_continue(&self) -> (go_on: bool) {
        true
    }

    fn new() -> (input: PiInput)
        ensures
            input@ == (PointerState { down: false, position: None, running: true }),
    {
        PiInput { mouse_down: false }
    }
}

} // verus!
