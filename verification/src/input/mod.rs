//! Pointer input: what every source of pointer events offers, and the two
//! sources.
//!
//! A source does not read devices or windows itself. Whoever owns them polls
//! them once per pass of the main loop and hands the events of that pass to
//! `update`.

pub mod glutin;
pub mod pi;

pub use self::glutin::GlutinInput;
pub use self::pi::PiInput;

use vstd::prelude::*;

verus! {

/// What a source of pointer events knows after a poll pass.
pub struct PointerState {
    /// The pointer is pressed.
    pub down: bool,
    /// Where the pointer is, for a source that can tell.
    pub position: Option<(usize, usize)>,
    /// The main loop is to go on.
    pub running: bool,
}

/// What the owner of the drawing surface has to do after events have been
/// taken in.
#[derive(Clone, Copy, Debug, PartialEq, Eq, Structural)]
pub enum Reaction {
    /// Nothing.
    Nothing,
    /// Give the drawing surface this size, in physical pixels.
    ResizeSurface { width: u32, height: u32 },
}

/// A source of pointer events.
pub trait Input: Sized {
    /// One event of the platform, as the source reads it.
    type Event;

    /// What the source knows at present.
    spec fn view(&self) -> PointerState;

    /// What the source knows after a poll pass that found `events`, if it
    /// knew `state` before.
    spec fn polled(state: PointerState, events: Seq<Self::Event>) -> PointerState;

    /// What a poll pass that found `events` asks of the owner of the
    /// drawing surface.
    spec fn reaction(events: Seq<Self::Event>) -> Reaction;

    /// Takes in the events of one poll pass, oldest first, and says what
    /// the owner of the drawing surface has to do about them.
    fn update(&mut self, events: &[Self::Event]) -> (reaction: Reaction)
        ensures
            final(self)@ == Self::polled(old(self)@, events@),
            reaction == Self::reaction(events@),
    ;

    /// Whether the pointer is pressed.
    fn is_mouse_down(&self) -> (down: bool)
        ensures
            down == self@.down,
    ;

    /// Where the pointer is, as column and row. Only a source that tracks
    /// the position can be asked.
    fn get_mouse_pos(&self) -> (pos: (usize, usize))
        requires
            self@.position is Some,
        ensures
            self@.position == Some(pos),
    ;

    /// Whether the main loop is to go on.
    fn do_continue(&self) -> (go_on: bool)
        ensures
            go_on == self@.running,
    ;

    /// A source that has seen no event yet: the pointer is up, at the origin
    /// where its position is tracked, and the main loop is to go on.
    fn new() -> (input: Self)
        ensures
            !input@.down,
            input@.running,
            input@.position is Some ==> input@.position == Some((0usize, 0usize)),
    ;
}

} // verus!
