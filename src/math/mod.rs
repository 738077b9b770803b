//! Geometry: three-component vectors and axis-aligned boxes.
pub mod bounds;
