//! Shader variables: storage buffers, uniforms and texture tables.

pub mod image;
pub mod mesh;
pub mod sampler;
pub mod storage;
pub mod textures;
pub mod uniform;
pub mod variable;
