//! Verified core of a 3D point-cloud visualization toolkit: bounding-box
//! algebra, value-to-color scaling, point-cloud datasets and an orbit camera.
//!
//! All quantities are fixed-point integers: a stored value `v` stands for the
//! real number `v / ONE` (see [`fixed`]).
pub mod fixed;
pub mod camera;
pub mod color;
pub mod data;
pub mod math;
pub mod renderer;
pub mod ui;

pub use camera::orbital::OrbitalCamera;
pub use color::colormap::{Colormap, Rgb};
pub use color::scale::{ColorScale, ScaleType};
pub use data::dataset::Dataset;
pub use data::point_cloud::{Color, PointCloud};
pub use math::bounds::{Bounds3D, Vec3};
pub use renderer::context::{RenderError, SurfaceSize};
pub use renderer::pipeline::PipelineBuilder;
pub use ui::metrics::PerformanceMetrics;
