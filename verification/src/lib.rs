//! A thin graphics layer: frame pacing, frame-duplicated resource bindings,
//! texture streaming bookkeeping, glyph atlas packing and the integer math
//! around them, with every rule stated as a contract.

pub mod colors;
pub mod config;
pub mod dpi;
pub mod fonts;
pub mod input;
pub mod lookup;
pub mod math;
pub mod system;
pub mod text;
pub mod textures;
pub mod vulkan;
