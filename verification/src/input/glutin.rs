//! Pointer input from the events of a desktop window.

use vstd::prelude::*;
use crate::input::{Input, PointerState, Reaction};

verus! {

/// An event of the window, cut down to what the pointer state depends on.
#[derive(Clone, Copy, Debug, PartialEq, Eq, Structural)]
pub enum WindowEvent {
    /// The user asked for the window to be closed.
    CloseRequested,
    /// The window has a new size, given in physical pixels.
    Resized { width: u32, height: u32 },
    /// A pointer button went down or up.
    MouseInput { pressed: bool },
    /// The pointer moved to column `x`, row `y` of the window.
    CursorMoved { x: i32, y: i32 },
    /// Any other event.
    Other,
}

/// A window coordinate as the pointer position holds it. A coordinate left
/// of or above the window is negative and wraps around the top of the range,
/// as a two's-complement number does when it is read as unsigned.
pub open spec fn wrapped(coord: i32) -> usize {
    if coord >= 0 {
        coord as usize
    } else {
        (usize::MAX + 1 + coord) as usize
    }
}

/// The pointer state after one event.
pub open spec fn after_event(state: PointerState, event: WindowEvent) -> PointerState {
    match event {
        WindowEvent::CloseRequested => PointerState { running: false, ..state },
        WindowEvent::Resized { .. } => state,
        WindowEvent::MouseInput { pressed } => PointerState { down: pressed, ..state },
        WindowEvent::CursorMoved { x, y } => PointerState {
            position: Some((wrapped(x), wrapped(y))),
            ..state
        },
        WindowEvent::Other => state,
    }
}

/// The pointer state after a queue of events, oldest first.
pub open spec fn after_events(state: PointerState, events: Seq<WindowEvent>) -> PointerState
    decreases events.len(),
{
    if events.len() == 0 {
        state
    } else {
        after_event(after_events(state, events.drop_last()), events.last())
    }
}

/// What the owner of the window has to do after `event`: the drawing
/// surface follows the window when the window has a new size.
pub open spec fn reaction_to(event: WindowEvent) -> Reaction {
    match event {
        WindowEvent::Resized { width, height } => Reaction::ResizeSurface { width, height },
        _ => Reaction::Nothing,
    }
}

/// What the owner of the window has to do after a queue of events, oldest
/// first: the drawing surface takes the size that the window had last.
pub open spec fn reaction_to_all(events: Seq<WindowEvent>) -> Reaction
    decreases events.len(),
{
    if events.len() == 0 {
        Reaction::Nothing
    } else if events.last() is Resized {
        reaction_to(events.last())
    } else {
        reaction_to_all(events.drop_last())
    }
}

/// Two poll passes in a row leave the pointer state that one pass over both
/// queues leaves, and the surface in the size that the later resize gives.
pub proof fn lemma_passes_join(state: PointerState, first: Seq<WindowEvent>, second: Seq<WindowEvent>)
    ensures
        after_events(after_events(state, first), second) == after_events(state, first + second),
        reaction_to_all(first + second) == if reaction_to_all(second) is Nothing {
            reaction_to_all(first)
        } else {
            reaction_to_all(second)
        },
    decreases second.len(),
{
    if second.len() == 0 {
        assert(first + second =~= first);
    } else {
        lemma_passes_join(state, first, second.drop_last());
        assert((first + second).drop_last() =~= first + second.drop_last());
        assert((first + second).last() == second.last());
    }
}

fn wrap_coordinate(coord: i32) -> (wrapped_coord: usize)
    ensures
        wrapped_coord == wrapped(coord),
{
    if coord >= 0 {
        coord as usize
    } else {
        usize::MAX - ((-(coord + 1)) as usize)
    }
}

/// The pointer and the close request of a desktop window.
pub struct GlutinInput {
    mouse_down: bool,
    mouse_x: usize,
    mouse_y: usize,
    running: bool,
}

impl GlutinInput {
    /// Takes in one event and says what the owner of the window has to do
    /// about it.
    pub fn handle_event(&mut self, event: &WindowEvent) -> (reaction: Reaction)
        ensures
            final(self)@ == after_event(old(self)@, *event),
            reaction == reaction_to(*event),
    {
        match event {
            WindowEvent::CloseRequested => {
                self.running = false;
                Reaction::Nothing
            },
            WindowEvent::Resized { width, height } => Reaction::ResizeSurface {
                width: *width,
                height: *height,
            },
            WindowEvent::MouseInput { pressed } => {
                self.mouse_down = *pressed;
                Reaction::Nothing
            },
            WindowEvent::CursorMoved { x, y } => {
                self.mouse_x = wrap_coordinate(*x);
                self.mouse_y = wrap_coordinate(*y);
                Reaction::Nothing
            },
            WindowEvent::Other => Reaction::Nothing,
        }
    }
}

impl Input for GlutinInput {
    type Event = WindowEvent;

    closed spec fn view(&self) -> PointerState {
        PointerState {
            down: self.mouse_down,
            position: Some((self.mouse_x, self.mouse_y)),
            running: self.running,
        }
    }

    open spec fn polled(state: PointerState, events: Seq<WindowEvent>) -> PointerState {
        after_events(state, events)
    }

    open spec fn reaction(events: Seq<WindowEvent>) -> Reaction {
        reaction_to_all(events)
    }

    fn update(&mut self, events: &[WindowEvent]) -> (reaction: Reaction) {
        let mut reaction = Reaction::Nothing;
        let mut i: usize = 0;
        while i < events.len()
            invariant
                i <= events@.len(),
                self@ == after_events(old(self)@, events@.take(i as int)),
                reaction == reaction_to_all(events@.take(i as int)),
            decreases events@.len() - i,
        {
            proof {
                let upto = events@.take(i + 1);
                assert(upto.drop_last() =~= events@.take(i as int));
                assert(upto.last() == events@[i as int]);
            }
            match self.handle_event(&events[i]) {
                Reaction::Nothing => {},
                resize => {
                    reaction = resize;
                },
            }
            i += 1;
        }
        assert(events@.take(i as int) =~= events@);
        reaction
    }

    fn is_mouse_down(&self) -> (down: bool) {
        self.mouse_down
    }

    fn get_mouse_pos(&self) -> (pos: (usize, usize)) {
        (self.mouse_x, self.mouse_y)
    }

    fn do_continue(&self) -> (go_on: bool) {
        self.running
    }

    fn new() -> (input: GlutinInput)
        ensures
            input@ == (PointerState { down: false, position: Some((0usize, 0usize)), running: true }),
    {
        GlutinInput { mouse_down: false, mouse_x: 0, mouse_y: 0, running: true }
    }
}

} // verus!
