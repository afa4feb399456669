//! Texture files: decoded pictures and texture containers become textures.

pub mod ktx;
pub mod png;

pub use self::ktx::load_ktx;
pub use self::png::load_png;
