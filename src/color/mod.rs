//! Mapping scalar values to colors.
pub mod colormap;
pub mod scale;
