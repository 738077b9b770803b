//! Cameras that turn user gestures into a viewing pose.
pub mod orbital;
