pub mod format;
pub mod frame;
pub mod geometry;
pub mod scaling;
pub mod tiles;
