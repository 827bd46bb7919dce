//! Textures: handles, decoding and the streaming loader's bookkeeping.

pub mod loader;
pub mod reader;
pub mod texture;
