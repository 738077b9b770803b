use viz_core::PerformanceMetrics;

#[test]
fn metrics_test_new() {
    let metrics = PerformanceMetrics::new(50);
    assert_eq!(metrics.total_frames(), 0);
    assert_eq!(metrics.current_fps(), 0);
}

#[test]
fn test_record_frame() {
    let mut metrics = PerformanceMetrics::new(10);
    metrics.record_frame(16_000);
    assert_eq!(metrics.total_frames(), 1);
    assert!(metrics.current_fps() > 0);
    assert_eq!(metrics.current_fps(), 62_500_000);
}

#[test]
fn test_max_samples() {
    let mut metrics = PerformanceMetrics::new(5);
    for i in 0..10 {
        metrics.record_frame(1_000 + i);
    }
    assert_eq!(metrics.frame_times().len(), 5);
    assert_eq!(metrics.total_frames(), 10);
    assert_eq!(metrics.frame_times().front(), Some(&1_005));
}

#[test]
fn metrics_test_reset() {
    let mut metrics = PerformanceMetrics::new(10);
    metrics.record_frame(1_000);
    metrics.record_frame(2_000);
    assert_eq!(metrics.total_frames(), 2);
    metrics.reset();
    assert_eq!(metrics.total_frames(), 0);
    assert_eq!(metrics.frame_times().len(), 0);
}

#[test]
fn frame_time_statistics() {
    let mut metrics = PerformanceMetrics::default();
    assert_eq!(metrics.average_frame_time(), 0);
    assert_eq!(metrics.min_frame_time(), 0);
    assert_eq!(metrics.max_frame_time(), 0);
    for t in [10_000, 20_000, 40_000] {
        metrics.record_frame(t);
    }
    assert_eq!(metrics.min_frame_time(), 10_000);
    assert_eq!(metrics.max_frame_time(), 40_000);
    assert_eq!(metrics.average_frame_time(), 23_333);
    assert_eq!(metrics.average_fps(), 1_000_000_000_000 / 23_333);
    assert_eq!(metrics.overall_average_fps(2_000_000), 1_500_000);
    assert_eq!(metrics.overall_average_fps(0), 0);
}

#[test]
fn zero_window_keeps_nothing() {
    let mut metrics = PerformanceMetrics::new(0);
    metrics.record_frame(5);
    assert_eq!(metrics.frame_times().len(), 0);
    assert_eq!(metrics.total_frames(), 1);
}
