//! Screen-space geometry: points and axis-aligned rectangles in pixels.

use vstd::prelude::*;

verus! {

/// A point on the screen, in pixels, with the origin in the top-left corner.
#[derive(Clone, Copy, Debug, PartialEq, Eq, Structural)]
pub struct Position {
    pub x: i32,
    pub y: i32,
}

/// An axis-aligned area of the screen: its top-left corner and its extent.
///
/// The extents are signed so that they can take part in intermediate
/// arithmetic; nothing here corrects a negative one.
#[derive(Clone, Copy, Debug, PartialEq, Eq, Structural)]
pub struct Rect {
    pub x: i32,
    pub y: i32,
    pub width: i32,
    pub height: i32,
}

impl Rect {
    /// The rectangle whose top-left corner is `pos`, with the given extent.
    pub fn new_from_pos(pos: &Position, width: i32, height: i32) -> (rect: Rect)
        ensures
            rect == (Rect { x: pos.x, y: pos.y, width, height }),
    {
        Rect { x: pos.x, y: pos.y, width, height }
    }

    /// The horizontal coordinate of the right edge.
    pub open spec fn right(self) -> int {
        self.x + self.width
    }

    /// The vertical coordinate of the bottom edge.
    pub open spec fn bottom(self) -> int {
        self.y + self.height
    }

    /// Both corners lie inside a frame of `width` by `height` pixels.
    pub open spec fn within(self, width: int, height: int) -> bool {
        &&& 0 <= self.x <= width
        &&& 0 <= self.right() <= width
        &&& 0 <= self.y <= height
        &&& 0 <= self.bottom() <= height
    }
}

} // verus!
