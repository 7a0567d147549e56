//! The contract between drawing code and a graphics backend.
//!
//! A backend supplies a handful of primitives; the drawing operations that
//! applications use are composed from them here, once, for every backend.
//! What a backend has been asked to draw in the frame under way is kept as a
//! ghost list of calls, and each operation states which call it adds.

use vstd::prelude::*;
use crate::pos::{Position, Rect};
use crate::render::color::Color;
use crate::render::ratio::Ratio;
use crate::render::texture::Texture;
use crate::render::vertices::{
    broadcast_color, channel, color_buffer, default_uv, default_uv_buffer, full_intensity,
    full_intensity_buffer, rect_to_vertices, rect_vertices,
};

verus! {

/// A decoded image of the `image` crate, `image::DynamicImage`. A value of
/// it is carried to the backend unread.
#[verifier::external_type_specification]
#[verifier::external_body]
pub struct ExDynamicImage(image::DynamicImage);

/// The error of an I/O operation, `std::io::Error`. A value of it is handed
/// on unread.
#[verifier::external_type_specification]
#[verifier::external_body]
pub struct ExIoError(std::io::Error);

/// Something with a width and a height in pixels.
pub trait Dimensions {
    /// The width that `get_width` reports.
    spec fn width(&self) -> usize;

    /// The height that `get_height` reports.
    spec fn height(&self) -> usize;

    /// The width of this object.
    fn get_width(&self) -> (width: usize)
        ensures
            width == self.width(),
    ;

    /// The height of this object.
    fn get_height(&self) -> (height: usize)
        ensures
            height == self.height(),
    ;
}

/// One request that a backend has received in a frame.
pub enum DrawCall<T> {
    /// The frame was cleared, to full transparency or to an opaque
    /// background.
    Clear { transparent: bool },
    /// Triangles filled from a texture, tinted by a colour at each vertex.
    Textured { texture: T, vertices: Seq<Ratio>, colors: Seq<Ratio>, uv: Seq<Ratio> },
    /// Triangles filled with a colour at each vertex.
    Colored { vertices: Seq<Ratio>, colors: Seq<Ratio> },
}

/// The buffers of one draw call belong together: whole quads of six
/// vertices, two position entries and four colour entries for each vertex.
pub open spec fn buffers_match(vertices: Seq<Ratio>, colors: Seq<Ratio>) -> bool {
    vertices.len() % 12 == 0 && colors.len() == 2 * vertices.len()
}

/// The extent of a texture as a rectangle's extent can hold it: its low
/// 32 bits, read as a signed number. An extent of up to `i32::MAX` pixels is
/// held as it is.
pub open spec fn rect_extent(pixels: usize) -> i32 {
    pixels as i32
}

/// The rectangle that a texture of `width` by `height` pixels covers when
/// its top-left corner is put at `pos`.
pub open spec fn texture_rect(pos: Position, width: usize, height: usize) -> Rect {
    Rect { x: pos.x, y: pos.y, width: rect_extent(width), height: rect_extent(height) }
}

/// The call that draws `texture` over `rect`, tinted with `color`, in a
/// frame of `fb_width` by `fb_height` pixels.
pub open spec fn sized_texture_call<T>(
    texture: T,
    rect: Rect,
    color: Color,
    fb_width: usize,
    fb_height: usize,
) -> DrawCall<T> {
    DrawCall::Textured {
        texture,
        vertices: rect_vertices(rect, fb_width, fb_height),
        colors: color_buffer(color),
        uv: default_uv(),
    }
}

/// The call that draws a texture of `width` by `height` pixels in its own
/// size at `pos`, tinted with `color`.
pub open spec fn placed_texture_call<T>(
    texture: T,
    width: usize,
    height: usize,
    pos: Position,
    color: Color,
    fb_width: usize,
    fb_height: usize,
) -> DrawCall<T> {
    sized_texture_call(texture, texture_rect(pos, width, height), color, fb_width, fb_height)
}

/// The call that draws a texture of `width` by `height` pixels in its own
/// size and colours at `pos`: every colour entry is 255 out of 255.
pub open spec fn plain_texture_call<T>(
    texture: T,
    width: usize,
    height: usize,
    pos: Position,
    fb_width: usize,
    fb_height: usize,
) -> DrawCall<T> {
    DrawCall::Textured {
        texture,
        vertices: rect_vertices(texture_rect(pos, width, height), fb_width, fb_height),
        colors: Seq::new(24, |i: int| channel(255)),
        uv: default_uv(),
    }
}

/// The call that fills `rect` with `color`.
pub open spec fn colored_rect_call<T>(
    rect: Rect,
    color: Color,
    fb_width: usize,
    fb_height: usize,
) -> DrawCall<T> {
    DrawCall::Colored {
        vertices: rect_vertices(rect, fb_width, fb_height),
        colors: color_buffer(color),
    }
}

/// What can be said of a backend between two of its operations.
pub struct DrawerState<T> {
    /// A frame has been started and not yet ended.
    pub in_frame: bool,
    /// The width of the frame buffer, in pixels.
    pub width: usize,
    /// The height of the frame buffer, in pixels.
    pub height: usize,
    /// Blending with what is already in the frame is switched on.
    pub blending: bool,
    /// How many state transitions the backend has counted in this frame.
    pub transitions: usize,
    /// The requests of the frame under way or, between two frames, of the
    /// one that ended last; oldest first.
    pub submitted: Seq<DrawCall<T>>,
}

/// What one request inside a frame does to a backend: `call` is added to the
/// frame's list. The frame stays open, its extents and the blending stay as
/// they are, and the count of state transitions does not fall.
pub open spec fn submits<T>(before: DrawerState<T>, after: DrawerState<T>, call: DrawCall<T>) -> bool {
    &&& after.in_frame
    &&& after.width == before.width
    &&& after.height == before.height
    &&& after.blending == before.blending
    &&& before.transitions <= after.transitions
    &&& after.submitted == before.submitted.push(call)
}

/// Drawing a texture in its own colours is drawing it tinted with opaque
/// white: the two calls are the same call.
pub proof fn lemma_plain_is_opaque_white<T>(
    texture: T,
    width: usize,
    height: usize,
    pos: Position,
    fb_width: usize,
    fb_height: usize,
)
    ensures
        plain_texture_call(texture, width, height, pos, fb_width, fb_height)
            == placed_texture_call(
            texture,
            width,
            height,
            pos,
            Color::opaque_white(),
            fb_width,
            fb_height,
        ),
{
    assert(Seq::new(24, |i: int| channel(255)) =~= color_buffer(Color::opaque_white()));
}

/// A texture whose extents fit a rectangle's is drawn over exactly its own
/// extent.
pub proof fn lemma_texture_rect_keeps_extent(pos: Position, width: usize, height: usize)
    requires
        width <= i32::MAX,
        height <= i32::MAX,
    ensures
        texture_rect(pos, width, height).x == pos.x,
        texture_rect(pos, width, height).y == pos.y,
        texture_rect(pos, width, height).width == width,
        texture_rect(pos, width, height).height == height,
{
}

/// A graphics backend.
///
/// The first group of operations is the backend's own. The second is
/// composed from the first and is the same for every backend.
pub trait Drawer: Sized {
    /// The backend's handle to a texture that it has taken over.
    type NativeTexture: Dimensions;

    /// The state of the backend, as far as this contract speaks of it.
    spec fn view(&self) -> DrawerState<Self::NativeTexture>;

    /// Starts a frame. Each frame is ended before the next one starts.
    fn start(&mut self)
        requires
            !old(self)@.in_frame,
        ensures
            final(self)@.in_frame,
            final(self)@.submitted == Seq::<DrawCall<Self::NativeTexture>>::empty(),
    ;

    /// Ends the frame and has the backend present it.
    fn end(&mut self)
        requires
            old(self)@.in_frame,
        ensures
            !final(self)@.in_frame,
            final(self)@.submitted == old(self)@.submitted,
    ;

    /// Clears the frame, to alpha 0 if `transparent` is set.
    fn clear(&mut self, transparent: bool)
        requires
            old(self)@.in_frame,
        ensures
            submits(old(self)@, final(self)@, DrawCall::Clear { transparent }),
    ;

    /// Switches blending on for what is drawn from here on. Doing so again
    /// changes nothing more.
    fn enable_blending(&mut self)
        requires
            old(self)@.in_frame,
        ensures
            final(self)@.blending,
            final(self)@.in_frame,
            final(self)@.width == old(self)@.width,
            final(self)@.height == old(self)@.height,
            old(self)@.transitions <= final(self)@.transitions,
            final(self)@.submitted == old(self)@.submitted,
    ;

    /// Hands a texture over to the backend, which keeps the pixel data. No
    /// frame is started or ended by this.
    fn convert_native_texture(&mut self, texture: Texture) -> (native: Self::NativeTexture)
        ensures
            final(self)@.in_frame == old(self)@.in_frame,
    ;

    /// The width of the frame buffer.
    fn get_width(&self) -> (width: usize)
        ensures
            width == self@.width,
    ;

    /// The height of the frame buffer.
    fn get_height(&self) -> (height: usize)
        ensures
            height == self@.height,
    ;

    /// Uses `image` as the background of the whole frame. No frame is
    /// started or ended by this.
    fn set_background(&mut self, image: image::DynamicImage)
        ensures
            final(self)@.in_frame == old(self)@.in_frame,
    ;

    /// Sets the brightness of the screen where the platform can; elsewhere
    /// the call does nothing. Whether it succeeds is up to the platform. No
    /// frame is started or ended by this.
    fn set_brightness(&mut self, brightness: u8) -> (set: Result<(), std::io::Error>)
        ensures
            final(self)@.in_frame == old(self)@.in_frame,
    ;

    /// Draws triangles filled from `texture`: positions, a colour for each
    /// vertex, and the texture coordinates of each vertex.
    fn draw_textured_vertices_colored_uv(
        &mut self,
        texture: &Self::NativeTexture,
        vertices: &[Ratio],
        colors: &[Ratio],
        uv: &[Ratio],
    )
        requires
            old(self)@.in_frame,
            buffers_match(vertices@, colors@),
            uv@.len() == vertices@.len(),
        ensures
            submits(
                old(self)@,
                final(self)@,
                DrawCall::Textured {
                    texture: *texture,
                    vertices: vertices@,
                    colors: colors@,
                    uv: uv@,
                },
            ),
    ;

    /// Draws triangles filled with a colour for each vertex.
    fn draw_colored_vertices(&mut self, vertices: &[Ratio], colors: &[Ratio])
        requires
            old(self)@.in_frame,
            buffers_match(vertices@, colors@),
        ensures
            submits(
                old(self)@,
                final(self)@,
                DrawCall::Colored { vertices: vertices@, colors: colors@ },
            ),
    ;

    /// The count of state transitions so far in this frame.
    fn get_transition_count(&self) -> (count: usize)
        ensures
            count == self@.transitions,
    ;

    /// Creates the backend, with a window title and size where the platform
    /// has a use for them. The error says why no backend could be had.
    fn new(title: &str, width: u32, height: u32) -> (created: Result<Self, String>)
        ensures
            created matches Ok(drawer) ==> !drawer@.in_frame,
    ;

    /// Draws one quad filled from the whole of `texture`, with a colour for
    /// each vertex.
    fn draw_textured_vertices_colored(
        &mut self,
        texture: &Self::NativeTexture,
        vertices: &[Ratio],
        colors: &[Ratio],
    )
        requires
            old(self)@.in_frame,
            vertices@.len() == 12,
            colors@.len() == 24,
        ensures
            submits(
                old(self)@,
                final(self)@,
                DrawCall::Textured {
                    texture: *texture,
                    vertices: vertices@,
                    colors: colors@,
                    uv: default_uv(),
                },
            ),
    {
        let uv = default_uv_buffer();
        self.draw_textured_vertices_colored_uv(texture, vertices, colors, &uv)
    }

    /// Draws one quad filled from the whole of `texture`, in the texture's
    /// own colours.
    fn draw_textured_vertices(&mut self, texture: &Self::NativeTexture, vertices: &[Ratio])
        requires
            old(self)@.in_frame,
            vertices@.len() == 12,
        ensures
            submits(
                old(self)@,
                final(self)@,
                DrawCall::Textured {
                    texture: *texture,
                    vertices: vertices@,
                    colors: full_intensity(),
                    uv: default_uv(),
                },
            ),
    {
        let colors = full_intensity_buffer();
        self.draw_textured_vertices_colored(texture, vertices, &colors)
    }

    /// Draws `texture` stretched over `rect`, tinted with `color`.
    fn draw_texture_sized(&mut self, texture: &Self::NativeTexture, rect: &Rect, color: &Color)
        requires
            old(self)@.in_frame,
        ensures
            submits(
                old(self)@,
                final(self)@,
                sized_texture_call(
                    *texture,
                    *rect,
                    *color,
                    old(self)@.width,
                    old(self)@.height,
                ),
            ),
    {
        let vertices = self.rect_to_vertices(rect);
        let colors = broadcast_color(color);

        self.draw_textured_vertices_colored(texture, &vertices, &colors)
    }

    /// Draws `texture` in its own size with its top-left corner at `pos`,
    /// tinted with `color`.
    fn draw_texture_colored(
        &mut self,
        texture: &Self::NativeTexture,
        pos: &Position,
        color: &Color,
    )
        requires
            old(self)@.in_frame,
        ensures
            submits(
                old(self)@,
                final(self)@,
                placed_texture_call(
                    *texture,
                    texture.width(),
                    texture.height(),
                    *pos,
                    *color,
                    old(self)@.width,
                    old(self)@.height,
                ),
            ),
    {
        let width = texture.get_width();
        let height = texture.get_height();

        self.draw_texture_sized(
            texture,
            &Rect::new_from_pos(
                pos,
                #[verifier::truncate]
                (width as i32),
                #[verifier::truncate]
                (height as i32),
            ),
            color,
        )
    }

    /// Draws `texture` in its own size and colours with its top-left corner
    /// at `pos`.
    fn draw_texture(&mut self, texture: &Self::NativeTexture, pos: &Position)
        requires
            old(self)@.in_frame,
        ensures
            submits(
                old(self)@,
                final(self)@,
                plain_texture_call(
                    *texture,
                    texture.width(),
                    texture.height(),
                    *pos,
                    old(self)@.width,
                    old(self)@.height,
                ),
            ),
    {
        proof {
            lemma_plain_is_opaque_white(
                *texture,
                texture.width(),
                texture.height(),
                *pos,
                self@.width,
                self@.height,
            );
        }
        self.draw_texture_colored(texture, pos, &Color::new_4byte(255, 255, 255, 255))
    }

    /// Fills `rect` with `color`.
    fn draw_colored_rect(&mut self, rect: &Rect, color: &Color)
        requires
            old(self)@.in_frame,
        ensures
            submits(
                old(self)@,
                final(self)@,
                colored_rect_call(*rect, *color, old(self)@.width, old(self)@.height),
            ),
    {
        let vertices: [Ratio; 12] = self.rect_to_vertices(rect);
        let colors = broadcast_color(color);

        self.draw_colored_vertices(&vertices, &colors)
    }

    /// The position buffer of `rect` in the frame buffer as it is now.
    fn rect_to_vertices(&self, rect: &Rect) -> (vertices: [Ratio; 12])
        ensures
            vertices@ == rect_vertices(*rect, self@.width, self@.height),
    {
        rect_to_vertices(rect, self.get_width(), self.get_height())
    }
}

} // verus!
