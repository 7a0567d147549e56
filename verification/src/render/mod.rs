//! Drawing: colours, textures, buffer composition and the backend contract.

pub mod color;
pub mod drawer;
pub mod ratio;
pub mod texture;
pub mod vertices;

pub use self::color::Color;
pub use self::ratio::Ratio;
pub use self::texture::Texture;
