pub mod attributes;
pub mod coverage;
pub mod export;
pub mod fixed;
pub mod laws;
pub mod linear;
pub mod primitives;
pub mod raster;
pub mod screen;
pub mod shaders;
