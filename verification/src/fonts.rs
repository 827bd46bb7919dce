//! Fonts: alphabets, the glyph atlas and the names of baked fonts.

pub mod font;
pub mod loader;
pub mod raster;
