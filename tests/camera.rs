use viz_core::camera::orbital::{
    DEFAULT_FOV, FRAC_PI_2, MAX_DISTANCE, MIN_DISTANCE, PITCH_LIMIT, TAN_HALF_DEFAULT_FOV, TAU,
};
use viz_core::{OrbitalCamera, Vec3};

fn fx(v: f32) -> i64 {
    (v as f64 * 1_000_000.0).round() as i64
}

fn v3(x: f32, y: f32, z: f32) -> Vec3 {
    Vec3::new(fx(x), fx(y), fx(z))
}

fn to_real(v: i64) -> f32 {
    (v as f64 / 1_000_000.0) as f32
}

#[test]
fn orbital_test_new() {
    let camera = OrbitalCamera::new(Vec3::zero(), fx(10.0), fx(1.77));
    assert_eq!(camera.target, Vec3::zero());
    assert_eq!(camera.distance, fx(10.0));
    assert_eq!(camera.aspect, fx(1.77));
}

#[test]
fn new_camera_defaults() {
    let camera = OrbitalCamera::new(Vec3::zero(), fx(10.0), fx(1.77));
    assert_eq!(camera.yaw, 0);
    assert_eq!(camera.pitch, 0);
    assert_eq!(camera.fov, DEFAULT_FOV);
    assert_eq!(camera.near, fx(0.1));
    assert_eq!(camera.far, fx(1000.0));
}

#[test]
fn test_pitch_clamping() {
    let mut camera = OrbitalCamera::new(Vec3::zero(), fx(10.0), fx(1.77));
    camera.rotate(0, fx(10.0));
    assert!(camera.pitch < FRAC_PI_2);
    assert!(camera.pitch > -FRAC_PI_2);
}

#[test]
fn pitch_clamps_to_limit_both_ways() {
    let mut camera = OrbitalCamera::default();
    camera.rotate(0, fx(10.0));
    assert_eq!(camera.pitch, PITCH_LIMIT);
    camera.rotate(0, i64::MIN);
    assert_eq!(camera.pitch, -PITCH_LIMIT);
    assert_eq!(PITCH_LIMIT, fx(1.560796));
}

#[test]
fn rotate_quarter_turn_sets_yaw() {
    let mut camera = OrbitalCamera::new(Vec3::zero(), fx(10.0), fx(1.77));
    camera.rotate(FRAC_PI_2, 0);
    assert_eq!(camera.yaw, FRAC_PI_2);
    assert_eq!(camera.pitch, 0);
}

#[test]
fn yaw_wraps_into_one_turn() {
    let mut camera = OrbitalCamera::default();
    camera.rotate(-1, 0);
    assert_eq!(camera.yaw, TAU - 1);
    camera.rotate(1, 0);
    assert_eq!(camera.yaw, 0);
    camera.rotate(3 * TAU + 5, 0);
    assert_eq!(camera.yaw, 5);
    for d in [i64::MAX, i64::MIN, -7 * TAU - 3, 123_456_789] {
        camera.rotate(d, d);
        assert!(camera.yaw >= 0 && camera.yaw < TAU);
        assert!(camera.pitch > -FRAC_PI_2 && camera.pitch < FRAC_PI_2);
    }
}

#[test]
fn test_zoom() {
    let mut camera = OrbitalCamera::new(Vec3::zero(), fx(10.0), fx(1.77));
    camera.zoom(fx(0.5));
    assert!((to_real(camera.distance) - 5.0).abs() < 1e-5);
}

#[test]
fn test_zoom_clamping() {
    let mut camera = OrbitalCamera::new(Vec3::zero(), fx(10.0), fx(1.77));
    camera.zoom(fx(1.5));
    assert!(camera.distance >= fx(0.1));
    assert_eq!(camera.distance, MIN_DISTANCE);
}

#[test]
fn zoom_out_clamps_at_maximum() {
    let mut camera = OrbitalCamera::new(Vec3::zero(), fx(900.0), fx(1.0));
    camera.zoom(fx(-0.5));
    assert_eq!(camera.distance, MAX_DISTANCE);
}

#[test]
fn zoom_in_strictly_decreases() {
    let mut camera = OrbitalCamera::new(Vec3::zero(), fx(10.0), fx(1.0));
    let mut last = camera.distance;
    for _ in 0..200 {
        camera.zoom(fx(0.1));
        assert!(camera.distance < last || camera.distance == MIN_DISTANCE);
        last = camera.distance;
    }
    assert_eq!(camera.distance, MIN_DISTANCE);
}

#[test]
fn test_frame_bounds() {
    let mut camera = OrbitalCamera::new(Vec3::zero(), fx(10.0), fx(1.77));
    let min = v3(-5.0, -5.0, -5.0);
    let max = v3(5.0, 5.0, 5.0);

    camera.frame_bounds(min, max, fx(0.1), TAN_HALF_DEFAULT_FOV);

    assert_eq!(camera.target, Vec3::zero());
    assert!(camera.distance > 0);
}

#[test]
fn frame_bounds_distance_formula() {
    let mut camera = OrbitalCamera::new(Vec3::new(1, 2, 3), fx(10.0), fx(1.77));
    camera.frame_bounds(v3(-5.0, -5.0, -5.0), v3(5.0, 5.0, 5.0), fx(0.1), TAN_HALF_DEFAULT_FOV);
    // diagonal 17.320508, grown by 10 percent, over 2 * tan(pi / 8)
    assert_eq!(camera.distance, 17_320_508i64 * 1_100_000 / (2 * TAN_HALF_DEFAULT_FOV));
    assert!((to_real(camera.distance) - 22.998).abs() < 1e-2);
    let mut tiny = OrbitalCamera::default();
    tiny.frame_bounds(Vec3::zero(), Vec3::zero(), 0, TAN_HALF_DEFAULT_FOV);
    assert_eq!(tiny.distance, MIN_DISTANCE);
    assert_eq!(tiny.target, Vec3::zero());
}

#[test]
fn orbital_test_reset() {
    let mut camera = OrbitalCamera::new(v3(5.0, 5.0, 5.0), fx(20.0), fx(1.77));
    camera.rotate(fx(1.0), fx(0.5));
    camera.zoom(fx(0.5));

    camera.reset();

    assert_eq!(camera.yaw, 0);
    assert_eq!(camera.pitch, 0);
    assert_eq!(camera.distance, fx(10.0));
    assert_eq!(camera.target, Vec3::zero());
    assert_eq!(camera.aspect, fx(1.77));
}

#[test]
fn pan_moves_target_along_axes() {
    let mut camera = OrbitalCamera::new(Vec3::zero(), fx(10.0), fx(1.0));
    let right = v3(1.0, 0.0, 0.0);
    let up = v3(0.0, 1.0, 0.0);
    camera.pan(fx(100.0), fx(-50.0), right, up);
    // 100 screen units at a speed of 10 * 0.001 per unit
    assert_eq!(camera.target, v3(1.0, -0.5, 0.0));
    assert_eq!(camera.distance, fx(10.0));
}

#[test]
fn set_aspect_and_fov() {
    let mut camera = OrbitalCamera::default();
    camera.set_aspect(fx(2.0));
    assert_eq!(camera.aspect, fx(2.0));
    camera.set_fov_degrees(fx(90.0));
    assert_eq!(camera.fov, 1_570_796);
    camera.set_fov_degrees(fx(-90.0));
    assert_eq!(camera.fov, -1_570_797);
}
