//! Textures held in main memory, before a backend takes them over.

use vstd::prelude::*;
use crate::render::color::Color;

verus! {

/// A grid of pixels, four bytes each (red, green, blue, alpha), row by row
/// from the top.
///
/// The pixel data is open to its owner. A texture is well formed while the
/// data holds exactly `width * height` pixels.
pub struct Texture {
    pub tex_data: Vec<u8>,
    width: usize,
    height: usize,
}

impl Texture {
    /// The bytes of all pixels, in order.
    pub closed spec fn data(&self) -> Seq<u8> {
        self.tex_data@
    }

    /// The number of pixels in a row.
    pub closed spec fn width(&self) -> usize {
        self.width
    }

    /// The number of rows.
    pub closed spec fn height(&self) -> usize {
        self.height
    }

    /// The data holds four bytes for each pixel of the grid, and no more.
    pub open spec fn wf(&self) -> bool {
        self.data().len() == self.width() * self.height() * 4
    }

    /// Where the first byte of the pixel in column `x` of row `y` lies.
    pub open spec fn pixel_offset(&self, x: int, y: int) -> int {
        (y * self.width() + x) * 4
    }

    /// The data after the four bytes at `offset` have been set to `color`.
    pub open spec fn painted(data: Seq<u8>, offset: int, color: Color) -> Seq<u8> {
        data.update(offset, color.r).update(offset + 1, color.g).update(offset + 2, color.b).update(
            offset + 3,
            color.a,
        )
    }

    /// Sets the pixel in column `x` of row `y` to `color`.
    ///
    /// The four bytes of the pixel must lie inside the data. Beyond that no
    /// bound is put on `x`: a column past the end of a row is a pixel of a
    /// later row.
    pub fn draw_pixel(&mut self, color: &Color, x: usize, y: usize)
        requires
            old(self).pixel_offset(x as int, y as int) + 4 <= old(self).data().len(),
        ensures
            final(self).width() == old(self).width(),
            final(self).height() == old(self).height(),
            final(self).data() == Self::painted(
                old(self).data(),
                old(self).pixel_offset(x as int, y as int),
                *color,
            ),
    {
        assert(0 <= y * self.width) by (nonlinear_arith);
        assert(self.tex_data@.len() == self.tex_data.len());
        let starting_pos = (y * self.width + x) * 4;

        self.tex_data[starting_pos] = color.r;
        self.tex_data[starting_pos + 1] = color.g;
        self.tex_data[starting_pos + 2] = color.b;
        self.tex_data[starting_pos + 3] = color.a;
    }

    /// The number of pixels in a row.
    pub fn get_width(&self) -> (width: usize)
        ensures
            width == self.width(),
    {
        self.width
    }

    /// The number of rows.
    pub fn get_height(&self) -> (height: usize)
        ensures
            height == self.height(),
    {
        self.height
    }

    /// A texture of `width` by `height` pixels, every byte of it zero.
    ///
    /// The data has to fit in one allocation, which holds at most
    /// `isize::MAX` bytes.
    pub fn new(width: usize, height: usize) -> (texture: Texture)
        requires
            width * height * 4 <= isize::MAX,
        ensures
            texture.width() == width,
            texture.height() == height,
            texture.wf(),
            texture.data() == Seq::new((width * height * 4) as nat, |i: int| 0u8),
    {
        assert(0 <= width * height) by (nonlinear_arith);
        Texture { tex_data: vec![0; width * height * 4], width, height }
    }
}

/// In a well-formed texture every pixel of the grid has its four bytes
/// inside the data.
pub proof fn lemma_grid_pixel_in_data(texture: Texture, x: int, y: int)
    requires
        texture.wf(),
        0 <= x < texture.width(),
        0 <= y < texture.height(),
    ensures
        0 <= texture.pixel_offset(x, y),
        texture.pixel_offset(x, y) + 4 <= texture.data().len(),
{
    let w = texture.width() as int;
    let h = texture.height() as int;
    assert(0 <= y * w && y * w + w <= h * w) by (nonlinear_arith)
        requires
            0 <= y < h,
            0 <= w,
    ;
    assert(h * w == w * h) by (nonlinear_arith);
}

} // verus!
