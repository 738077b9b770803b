use viz_core::{Bounds3D, Vec3};

fn fx(v: f32) -> i64 {
    (v as f64 * 1_000_000.0).round() as i64
}

fn v3(x: f32, y: f32, z: f32) -> Vec3 {
    Vec3::new(fx(x), fx(y), fx(z))
}

fn to_real(v: i64) -> f32 {
    (v as f64 / 1_000_000.0) as f32
}

#[test]
fn test_from_points() {
    let points = vec![v3(0.0, 0.0, 0.0), v3(1.0, 2.0, 3.0), v3(-1.0, 1.0, 0.5)];
    let bounds = Bounds3D::from_points(&points);
    assert_eq!(bounds.min, v3(-1.0, 0.0, 0.0));
    assert_eq!(bounds.max, v3(1.0, 2.0, 3.0));
}

#[test]
fn test_center() {
    let bounds = Bounds3D::new(v3(-1.0, -1.0, -1.0), v3(1.0, 1.0, 1.0));
    assert_eq!(bounds.center(), Vec3::zero());
}

#[test]
fn bounds_test_size() {
    let bounds = Bounds3D::new(v3(-1.0, -2.0, -3.0), v3(1.0, 2.0, 3.0));
    assert_eq!(bounds.size(), v3(2.0, 4.0, 6.0));
}

#[test]
fn test_contains() {
    let bounds = Bounds3D::new(v3(-1.0, -1.0, -1.0), v3(1.0, 1.0, 1.0));
    assert!(bounds.contains(Vec3::zero()));
    assert!(bounds.contains(v3(0.5, 0.5, 0.5)));
    assert!(!bounds.contains(v3(2.0, 0.0, 0.0)));
}

#[test]
fn test_intersects() {
    let bounds1 = Bounds3D::new(v3(0.0, 0.0, 0.0), v3(2.0, 2.0, 2.0));
    let bounds2 = Bounds3D::new(v3(1.0, 1.0, 1.0), v3(3.0, 3.0, 3.0));
    let bounds3 = Bounds3D::new(v3(3.0, 3.0, 3.0), v3(4.0, 4.0, 4.0));

    assert!(bounds1.intersects(&bounds2));
    assert!(!bounds1.intersects(&bounds3));
}

#[test]
fn test_diagonal() {
    let bounds = Bounds3D::new(v3(0.0, 0.0, 0.0), v3(1.0, 1.0, 1.0));
    let expected = (3.0_f32).sqrt();
    assert!((to_real(bounds.diagonal()) - expected).abs() < 1e-6);
}

#[test]
fn test_corners() {
    let bounds = Bounds3D::new(v3(0.0, 0.0, 0.0), v3(1.0, 1.0, 1.0));
    let corners = bounds.corners();
    assert_eq!(corners.len(), 8);
    assert!(corners.contains(&v3(0.0, 0.0, 0.0)));
    assert!(corners.contains(&v3(1.0, 1.0, 1.0)));
}

#[test]
fn corners_follow_fixed_order() {
    let bounds = Bounds3D::new(Vec3::new(1, 2, 3), Vec3::new(4, 5, 6));
    let corners = bounds.corners();
    assert_eq!(corners[0], Vec3::new(1, 2, 3));
    assert_eq!(corners[1], Vec3::new(4, 2, 3));
    assert_eq!(corners[2], Vec3::new(1, 5, 3));
    assert_eq!(corners[3], Vec3::new(4, 5, 3));
    assert_eq!(corners[4], Vec3::new(1, 2, 6));
    assert_eq!(corners[7], Vec3::new(4, 5, 6));
}

#[test]
fn from_points_of_nothing_is_zero_box() {
    let bounds = Bounds3D::from_points(&[]);
    assert_eq!(bounds, Bounds3D::zero());
    assert_eq!(Bounds3D::default(), Bounds3D::zero());
}

#[test]
fn from_points_contains_every_point_and_touches_each_face() {
    let points = vec![
        Vec3::new(3, -7, 2),
        Vec3::new(-4, 9, 0),
        Vec3::new(1, 1, -5),
        Vec3::new(0, 0, 8),
    ];
    let b = Bounds3D::from_points(&points);
    for p in &points {
        assert!(b.contains(*p));
    }
    assert_eq!(b.min, Vec3::new(-4, -7, -5));
    assert_eq!(b.max, Vec3::new(3, 9, 8));
}

#[test]
fn from_single_point_is_degenerate_box() {
    let b = Bounds3D::from_points(&[Vec3::new(5, 6, 7)]);
    assert_eq!(b.min, b.max);
    assert_eq!(b.min, Vec3::new(5, 6, 7));
}

#[test]
fn union_contains_both_boxes() {
    let a = Bounds3D::new(Vec3::new(0, 0, 0), Vec3::new(2, 2, 2));
    let b = Bounds3D::new(Vec3::new(-1, 1, 3), Vec3::new(1, 5, 4));
    let u = a.union(&b);
    assert_eq!(u, Bounds3D::new(Vec3::new(-1, 0, 0), Vec3::new(2, 5, 4)));
    for c in a.corners().iter().chain(b.corners().iter()) {
        assert!(u.contains(*c));
    }
}

#[test]
fn intersects_is_symmetric() {
    let a = Bounds3D::new(Vec3::new(0, 0, 0), Vec3::new(2, 2, 2));
    let b = Bounds3D::new(Vec3::new(2, 2, 2), Vec3::new(3, 3, 3));
    let c = Bounds3D::new(Vec3::new(5, 0, 0), Vec3::new(6, 1, 1));
    assert!(a.intersects(&b) && b.intersects(&a));
    assert!(!a.intersects(&c) && !c.intersects(&a));
}

#[test]
fn expanding_matches_union() {
    let mut a = Bounds3D::new(Vec3::new(0, 0, 0), Vec3::new(1, 1, 1));
    a.expand_to_include(Vec3::new(-3, 4, 0));
    assert_eq!(a, Bounds3D::new(Vec3::new(-3, 0, 0), Vec3::new(1, 4, 1)));
    let other = Bounds3D::new(Vec3::new(0, -2, 0), Vec3::new(9, 0, 2));
    let expected = a.union(&other);
    a.expand_to_include_bounds(&other);
    assert_eq!(a, expected);
    assert_eq!(a, Bounds3D::new(Vec3::new(-3, -2, 0), Vec3::new(9, 4, 2)));
}

#[test]
fn padded_grows_every_side() {
    let b = Bounds3D::new(v3(-1.0, 0.0, 1.0), v3(1.0, 2.0, 3.0));
    let p = b.padded(fx(0.5));
    assert_eq!(p.min, v3(-1.5, -0.5, 0.5));
    assert_eq!(p.max, v3(1.5, 2.5, 3.5));
}

#[test]
fn centered_and_extents() {
    let b = Bounds3D::centered(fx(4.0));
    assert_eq!(b.min, v3(-2.0, -2.0, -2.0));
    assert_eq!(b.max, v3(2.0, 2.0, 2.0));
    assert_eq!(b.extents(), v3(2.0, 2.0, 2.0));
    let odd = Bounds3D::centered(3);
    assert_eq!(odd.max, Vec3::splat(1));
    assert_eq!(odd.min, Vec3::splat(-1));
}

#[test]
fn center_rounds_down() {
    let b = Bounds3D::new(Vec3::new(-3, 0, 1), Vec3::new(0, 3, 2));
    assert_eq!(b.center(), Vec3::new(-2, 1, 1));
}

#[test]
fn diagonal_of_three_four_five() {
    let b = Bounds3D::new(Vec3::new(0, 0, 0), Vec3::new(3, 4, 0));
    assert_eq!(b.diagonal(), 5);
    let c = Bounds3D::new(Vec3::new(0, 0, 0), Vec3::new(1, 1, 1));
    assert_eq!(c.diagonal(), 1);
}

#[test]
fn vector_min_max() {
    let a = Vec3::new(1, 5, -2);
    let b = Vec3::new(3, -1, -2);
    assert_eq!(a.min(b), Vec3::new(1, -1, -2));
    assert_eq!(a.max(b), Vec3::new(3, 5, -2));
}
