pub mod pipelines;
pub mod vertex;
