//! Datasets: geometry with bounds and a name.
pub mod dataset;
pub mod point_cloud;
