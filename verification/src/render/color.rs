//! Colours: four 8-bit channels, never premultiplied.

use vstd::prelude::*;

verus! {

/// A colour with red, green, blue and alpha channels.
///
/// A colour is a value: an operation that changes a channel returns a new
/// colour and leaves the one it was applied to as it is.
#[derive(Clone, Copy, Debug, PartialEq, Eq, PartialOrd, Ord, Hash, Structural)]
pub struct Color {
    pub r: u8,
    pub g: u8,
    pub b: u8,
    pub a: u8,
}

impl Color {
    /// The colour that leaves the colours of a texture as they are.
    pub open spec fn opaque_white() -> Color {
        Color { r: 255, g: 255, b: 255, a: 255 }
    }

    /// This colour with its alpha channel replaced by `a`.
    pub fn alpha(&self, a: u8) -> (tinted: Color)
        ensures
            tinted == (Color { r: self.r, g: self.g, b: self.b, a }),
    {
        let mut cloned = *self;
        cloned.a = a;
        cloned
    }

    /// The colour with the four channels given.
    pub fn new_4byte(r: u8, g: u8, b: u8, a: u8) -> (color: Color)
        ensures
            color == (Color { r, g, b, a }),
    {
        Color { r, g, b, a }
    }

    /// The opaque colour with the three channels given.
    pub fn new_3byte(r: u8, g: u8, b: u8) -> (color: Color)
        ensures
            color == (Color { r, g, b, a: 255 }),
    {
        Color::new_4byte(r, g, b, 255)
    }
}

} // verus!
