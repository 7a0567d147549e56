//! Buffer composition: from rectangles and colours to what a draw call
//! carries.
//!
//! A quad is drawn as two triangles, six vertices in a fixed order. Positions
//! are in normalized device coordinates, which run from -1 to 1 on both axes,
//! the vertical one upwards. Screen coordinates run downwards, so the
//! vertical coordinate changes sign on the way.

use vstd::prelude::*;
use crate::pos::Rect;
use crate::render::color::Color;
use crate::render::ratio::{lemma_unit_range_value, Ratio};

verus! {

/// The six corners of two triangles that cover the quad between `left` and
/// `right`, `top` and `bottom`, two entries for each corner: top-left,
/// bottom-left, bottom-right, then top-left, top-right, bottom-right.
pub open spec fn two_triangles(left: Ratio, right: Ratio, top: Ratio, bottom: Ratio) -> Seq<Ratio> {
    seq![left, top, left, bottom, right, bottom, left, top, right, top, right, bottom]
}

/// The pixel coordinate `coord` on an axis of `extent` pixels, in normalized
/// device coordinates: `coord / extent * 2 - 1`, as one quotient over
/// `extent`.
pub open spec fn ndc(coord: int, extent: usize) -> Ratio {
    Ratio { num: (2 * coord - extent) as i128, den: extent as u64 }
}

/// The position buffer of `rect` in a frame of `fb_width` by `fb_height`
/// pixels.
///
/// The order of the corners does not depend on the signs of the extents.
pub open spec fn rect_vertices(rect: Rect, fb_width: usize, fb_height: usize) -> Seq<Ratio> {
    two_triangles(
        ndc(rect.x as int, fb_width),
        ndc(rect.right(), fb_width),
        ndc(rect.y as int, fb_height).negated(),
        ndc(rect.bottom(), fb_height).negated(),
    )
}

/// One colour channel as a share of full intensity.
pub open spec fn channel(level: u8) -> Ratio {
    Ratio { num: level as i128, den: 255 }
}

/// The four entries that `color` puts on one vertex.
pub open spec fn vertex_color(color: Color) -> Seq<Ratio> {
    seq![channel(color.r), channel(color.g), channel(color.b), channel(color.a)]
}

/// The colour buffer that gives each of the six vertices the colour `color`.
pub open spec fn color_buffer(color: Color) -> Seq<Ratio> {
    Seq::new(24, |i: int| vertex_color(color)[i % 4])
}

/// The number zero.
pub open spec fn zero() -> Ratio {
    Ratio { num: 0, den: 1 }
}

/// The number one.
pub open spec fn one() -> Ratio {
    Ratio { num: 1, den: 1 }
}

/// The texture coordinates that stretch a whole texture over a quad.
pub open spec fn default_uv() -> Seq<Ratio> {
    seq![zero(), zero(), zero(), one(), one(), one(), zero(), zero(), one(), zero(), one(), one()]
}

/// The colour buffer that leaves a texture's colours as they are: full
/// intensity in every channel of every vertex.
pub open spec fn full_intensity() -> Seq<Ratio> {
    Seq::new(24, |i: int| one())
}

/// The numbers that the entries of a buffer denote.
pub open spec fn values(buffer: Seq<Ratio>) -> Seq<real> {
    Seq::new(buffer.len(), |i: int| buffer[i].value())
}

/// The number `coord / extent * 2 - 1`.
pub open spec fn ndc_value(coord: int, extent: usize) -> real {
    coord as real / extent as real * 2real - 1real
}

/// The formula behind `ndc`: on an axis of at least one pixel the quotient
/// denotes `coord / extent * 2 - 1`, and the flipped quotient the opposite.
pub proof fn lemma_ndc_value(coord: int, extent: usize)
    requires
        extent > 0,
        i64::MIN <= coord <= i64::MAX,
    ensures
        ndc(coord, extent).is_finite(),
        ndc(coord, extent).value() == ndc_value(coord, extent),
        ndc(coord, extent).negated().is_finite(),
        ndc(coord, extent).negated().value() == -ndc_value(coord, extent),
{
    let c = coord as real;
    let e = extent as real;
    assert(e > 0real);
    assert((2 * coord - extent) as real == 2real * c - e);
    assert((extent - 2 * coord) as real == e - 2real * c);
    assert((2real * c - e) / e == c / e * 2real - 1real) by (nonlinear_arith)
        requires
            e > 0real,
    ;
    assert((e - 2real * c) / e == -(c / e * 2real - 1real)) by (nonlinear_arith)
        requires
            e > 0real,
    ;
}

/// The numbers in a position buffer, in a frame of at least one pixel on
/// each axis. With `min_x` and `max_x` the left and right edge and `min_y`
/// and `max_y` the top and bottom edge, each taken through
/// `coord / extent * 2 - 1`, the first triangle is (min_x, -min_y),
/// (min_x, -max_y), (max_x, -max_y) and the second (min_x, -min_y),
/// (max_x, -min_y), (max_x, -max_y).
pub proof fn lemma_rect_vertices_values(rect: Rect, fb_width: usize, fb_height: usize)
    requires
        fb_width > 0,
        fb_height > 0,
    ensures
        ({
            let min_x = ndc_value(rect.x as int, fb_width);
            let max_x = ndc_value(rect.x + rect.width, fb_width);
            let min_y = ndc_value(rect.y as int, fb_height);
            let max_y = ndc_value(rect.y + rect.height, fb_height);
            values(rect_vertices(rect, fb_width, fb_height)) == seq![
                min_x, -min_y, min_x, -max_y, max_x, -max_y,
                min_x, -min_y, max_x, -min_y, max_x, -max_y,
            ]
        }),
{
    lemma_ndc_value(rect.x as int, fb_width);
    lemma_ndc_value(rect.x + rect.width, fb_width);
    lemma_ndc_value(rect.y as int, fb_height);
    lemma_ndc_value(rect.y + rect.height, fb_height);
    let min_x = ndc_value(rect.x as int, fb_width);
    let max_x = ndc_value(rect.x + rect.width, fb_width);
    let min_y = ndc_value(rect.y as int, fb_height);
    let max_y = ndc_value(rect.y + rect.height, fb_height);
    assert(values(rect_vertices(rect, fb_width, fb_height)) =~= seq![
        min_x, -min_y, min_x, -max_y, max_x, -max_y,
        min_x, -min_y, max_x, -min_y, max_x, -max_y,
    ]);
}

/// In a frame of at least one pixel on each axis a rectangle's position
/// buffer has twelve entries, each with a finite value. Where both corners
/// of the rectangle lie inside the frame, every value lies between -1 and 1.
pub proof fn lemma_vertices_in_range(rect: Rect, fb_width: usize, fb_height: usize)
    requires
        fb_width > 0,
        fb_height > 0,
    ensures
        rect_vertices(rect, fb_width, fb_height).len() == 12,
        forall|i: int|
            0 <= i < 12 ==> (#[trigger] rect_vertices(rect, fb_width, fb_height)[i]).is_finite(),
        rect.within(fb_width as int, fb_height as int) ==> forall|i: int|
            0 <= i < 12 ==> -1real <= (#[trigger] rect_vertices(
                rect,
                fb_width,
                fb_height,
            )[i]).value() <= 1real,
{
    let v = rect_vertices(rect, fb_width, fb_height);
    if rect.within(fb_width as int, fb_height as int) {
        assert forall|i: int| 0 <= i < 12 implies -1real <= (#[trigger] v[i]).value() <= 1real by {
            assert(v[i].in_unit_range());
            lemma_unit_range_value(v[i]);
        }
    }
}

/// A rectangle that covers the whole frame covers the whole of the
/// normalized space: its corners are the corners (-1, 1), (-1, -1), (1, -1)
/// and (1, 1), in the order of the two triangles.
pub proof fn lemma_full_frame_vertices(fb_width: usize, fb_height: usize)
    requires
        0 < fb_width <= i32::MAX,
        0 < fb_height <= i32::MAX,
    ensures
        values(
            rect_vertices(
                Rect { x: 0, y: 0, width: fb_width as i32, height: fb_height as i32 },
                fb_width,
                fb_height,
            ),
        ) == seq![
            -1real, 1real, -1real, -1real, 1real, -1real,
            -1real, 1real, 1real, 1real, 1real, -1real,
        ],
{
    let rect = Rect { x: 0, y: 0, width: fb_width as i32, height: fb_height as i32 };
    lemma_rect_vertices_values(rect, fb_width, fb_height);
    let w = fb_width as real;
    let h = fb_height as real;
    assert(0real / w * 2real - 1real == -1real) by (nonlinear_arith)
        requires
            w > 0real,
    ;
    assert(w / w * 2real - 1real == 1real) by (nonlinear_arith)
        requires
            w > 0real,
    ;
    assert(0real / h * 2real - 1real == -1real) by (nonlinear_arith)
        requires
            h > 0real,
    ;
    assert(h / h * 2real - 1real == 1real) by (nonlinear_arith)
        requires
            h > 0real,
    ;
    assert(ndc_value(0, fb_width) == -1real);
    assert(ndc_value(fb_width as int, fb_width) == 1real);
    assert(ndc_value(0, fb_height) == -1real);
    assert(ndc_value(fb_height as int, fb_height) == 1real);
}

/// A colour buffer has 24 entries, and each group of four of them is the
/// colour: red, green, blue and alpha, each divided by 255.
pub proof fn lemma_color_buffer_groups(color: Color)
    ensures
        color_buffer(color).len() == 24,
        forall|k: int|
            0 <= k < 6 ==> #[trigger] color_buffer(color).subrange(4 * k, 4 * k + 4)
                == vertex_color(color),
        values(vertex_color(color)) == seq![
            color.r as real / 255real,
            color.g as real / 255real,
            color.b as real / 255real,
            color.a as real / 255real,
        ],
{
    assert forall|k: int| 0 <= k < 6 implies #[trigger] color_buffer(color).subrange(
        4 * k,
        4 * k + 4,
    ) == vertex_color(color) by {
        assert(color_buffer(color).subrange(4 * k, 4 * k + 4) =~= vertex_color(color));
    }
    assert(values(vertex_color(color)) =~= seq![
        color.r as real / 255real,
        color.g as real / 255real,
        color.b as real / 255real,
        color.a as real / 255real,
    ]);
}

/// The default buffers of a textured quad: the texture coordinates are the
/// corners of the unit square in the order of the two triangles, which reads
/// 0, 0, 0, 1, 1, 1, 0, 0, 1, 0, 1, 1, and all 24 colour entries are 1.
pub proof fn lemma_default_buffers()
    ensures
        default_uv() == two_triangles(zero(), one(), zero(), one()),
        values(default_uv()) == seq![
            0real, 0real, 0real, 1real, 1real, 1real,
            0real, 0real, 1real, 0real, 1real, 1real,
        ],
        full_intensity().len() == 24,
        forall|i: int| 0 <= i < 24 ==> (#[trigger] full_intensity()[i]).value() == 1real,
{
    assert(default_uv() =~= two_triangles(zero(), one(), zero(), one()));
    assert(0real / 1real == 0real) by (nonlinear_arith);
    assert(1real / 1real == 1real) by (nonlinear_arith);
    assert(zero().value() == 0real);
    assert(one().value() == 1real);
    assert(values(default_uv()) =~= seq![
        0real, 0real, 0real, 1real, 1real, 1real,
        0real, 0real, 1real, 0real, 1real, 1real,
    ]);
}

/// Opaque white tints nothing: each entry of its colour buffer has the
/// value 1, as each entry of the full-intensity buffer has.
pub proof fn lemma_white_is_full_intensity()
    ensures
        values(color_buffer(Color::opaque_white())) == values(full_intensity()),
{
    assert(1real / 1real == 1real) by (nonlinear_arith);
    assert(255real / 255real == 1real) by (nonlinear_arith);
    assert(one().value() == 1real);
    assert(channel(255).value() == 1real);
    assert forall|i: int| 0 <= i < 24 implies #[trigger] color_buffer(Color::opaque_white())[i]
        == channel(255) by {
        assert(0 <= i % 4 < 4);
    }
    assert(values(color_buffer(Color::opaque_white())) =~= values(full_intensity()));
}

fn to_ndc(coord: i64, extent: usize) -> (q: Ratio)
    ensures
        q == ndc(coord as int, extent),
{
    Ratio { num: 2 * (coord as i128) - (extent as i128), den: extent as u64 }
}

fn to_flipped_ndc(coord: i64, extent: usize) -> (q: Ratio)
    ensures
        q == ndc(coord as int, extent).negated(),
{
    Ratio { num: (extent as i128) - 2 * (coord as i128), den: extent as u64 }
}

/// Composes the position buffer of `rect` for a frame of `fb_width` by
/// `fb_height` pixels: two triangles, six vertices, twelve entries.
///
/// An extent of zero pixels gives entries without a finite value.
pub fn rect_to_vertices(rect: &Rect, fb_width: usize, fb_height: usize) -> (vertices: [Ratio; 12])
    ensures
        vertices@ == rect_vertices(*rect, fb_width, fb_height),
{
    let min_x = to_ndc(rect.x as i64, fb_width);
    let max_x = to_ndc(rect.x as i64 + rect.width as i64, fb_width);
    let top = to_flipped_ndc(rect.y as i64, fb_height);
    let bottom = to_flipped_ndc(rect.y as i64 + rect.height as i64, fb_height);

    let vertices = [
        min_x, top, min_x, bottom, max_x, bottom,
        min_x, top, max_x, top, max_x, bottom,
    ];
    assert(vertices@ =~= rect_vertices(*rect, fb_width, fb_height));
    vertices
}

/// Spreads `color` over the six vertices of a quad: for each vertex its
/// red, green, blue and alpha channel, each as a share of 255.
pub fn broadcast_color(color: &Color) -> (colors: [Ratio; 24])
    ensures
        colors@ == color_buffer(*color),
{
    let mut colors: [Ratio; 24] = [Ratio { num: 0, den: 1 }; 24];

    for i in 0..6usize
        invariant
            forall|j: int| 0 <= j < 4 * i ==> colors@[j] == color_buffer(*color)[j],
    {
        colors[i * 4] = Ratio { num: color.r as i128, den: 255 };
        colors[i * 4 + 1] = Ratio { num: color.g as i128, den: 255 };
        colors[i * 4 + 2] = Ratio { num: color.b as i128, den: 255 };
        colors[i * 4 + 3] = Ratio { num: color.a as i128, den: 255 };
    }
    assert(colors@ =~= color_buffer(*color));
    colors
}

/// The texture coordinates that stretch a whole texture over a quad, in the
/// corner order of the position buffer.
pub fn default_uv_buffer() -> (uv: [Ratio; 12])
    ensures
        uv@ == default_uv(),
{
    let zero = Ratio { num: 0, den: 1 };
    let one = Ratio { num: 1, den: 1 };
    let uv = [zero, zero, zero, one, one, one, zero, zero, one, zero, one, one];
    assert(uv@ =~= default_uv());
    uv
}

/// The colour buffer that leaves a texture's colours as they are.
pub fn full_intensity_buffer() -> (colors: [Ratio; 24])
    ensures
        colors@ == full_intensity(),
{
    let full = Ratio { num: 1, den: 1 };
    let colors = [full; 24];
    proof {
        vstd::array::axiom_spec_array_fill_for_copy_type::<Ratio, 24>(full);
    }
    assert(colors@ =~= full_intensity());
    colors
}

} // verus!
