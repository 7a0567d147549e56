//! A small 2D drawing layer: rectangles, textured quads and pointer input,
//! described independently of the graphics backend that puts them on screen.
//!
//! The crate holds the geometry and colour model, the composition of draw
//! requests into vertex, colour and texture-coordinate buffers, the contract a
//! backend has to meet, and the pointer state machines.

pub mod input;
pub mod pos;
pub mod render;
