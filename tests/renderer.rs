use viz_core::{PipelineBuilder, RenderError, SurfaceSize};

#[test]
fn resize_ignores_zero_sides() {
    let mut size = SurfaceSize::new(800, 600);
    assert!(!size.resize(0, 100));
    assert_eq!(size, SurfaceSize::new(800, 600));
    assert!(size.resize(1920, 1080));
    assert_eq!(size, SurfaceSize::new(1920, 1080));
}

#[test]
fn aspect_ratio_is_fixed_point() {
    assert_eq!(SurfaceSize::new(1920, 1080).aspect_ratio(), 1_777_777);
    assert_eq!(SurfaceSize::new(100, 0).aspect_ratio(), 0);
    assert_eq!(SurfaceSize::new(u32::MAX, 1).aspect_ratio(), u32::MAX as i64 * 1_000_000);
}

#[test]
fn pipeline_builder_builds() {
    let _a = PipelineBuilder::new();
    let _b = PipelineBuilder::default();
}

#[test]
fn render_errors_compare() {
    let e = RenderError::OutOfMemory { requested: 64 };
    assert_eq!(e, RenderError::OutOfMemory { requested: 64 });
    assert_ne!(RenderError::NoAdapterFound, RenderError::ShaderError("x".to_string()));
}
