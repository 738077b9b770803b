//! What the library decides for the GPU layer: error kinds, surface sizing
//! and pipeline settings.
pub mod context;
pub mod pipeline;
