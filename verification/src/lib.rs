pub mod color;
pub mod compose;
pub mod config;
pub mod error;
pub mod grid;
pub mod mask;
pub mod pipeline;
pub mod raster;
