//! A tile grid, the quad mesh derived from it, the translation of pixel
//! clicks into grid cells, and frame-rate bookkeeping for a viewer loop.

pub mod error;
pub mod grid;
pub mod mesh;
pub mod click;
pub mod frames;
