//! Resources built from device objects: meshes, shaders and textures.

pub mod mesh;
pub mod shader;
pub mod texture;

pub use mesh::{Mesh, MeshObject};
pub use shader::Shader;
pub use texture::Texture;
