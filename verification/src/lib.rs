//! A software rasterization pipeline in 16.16 fixed-point arithmetic: indexed
//! triangles and lines, a uniform bundle and three pluggable stages go in, a
//! frame buffer of colour and depth cells comes out.

pub mod graphics;
pub mod logger;
pub mod render;
pub mod resources;
