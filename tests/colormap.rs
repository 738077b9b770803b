use viz_core::{Colormap, Rgb};

#[test]
fn sample_endpoints_are_control_colors() {
    for m in [Colormap::Viridis, Colormap::Plasma, Colormap::Inferno, Colormap::Turbo] {
        let pts = m.control_colors();
        assert_eq!(m.sample(0), pts[0]);
        assert_eq!(m.sample(1_000_000), pts[4]);
        assert_eq!(m.sample(500_000), pts[2]);
    }
}

#[test]
fn sample_clamps_out_of_range() {
    let m = Colormap::Viridis;
    assert_eq!(m.sample(-5), m.sample(0));
    assert_eq!(m.sample(2_000_000), m.sample(1_000_000));
    assert_eq!(m.sample(i64::MIN), m.sample(0));
}

#[test]
fn sample_interpolates_within_segment() {
    // halfway between the first two viridis control colors
    let c = Colormap::Viridis.sample(125_000);
    assert_eq!(c, Rgb { r: 248_371, g: 163_617, b: 437_560 });
}

#[test]
fn viridis_lightness_rises() {
    let m = Colormap::Viridis;
    let mut last = -1;
    for i in 0..=100 {
        let c = m.sample(i * 10_000);
        let light = c.r + c.g + c.b;
        assert!(light >= last);
        last = light;
        assert!(c.r >= 0 && c.r <= 1_000_000);
    }
}

#[test]
fn colormap_by_index() {
    assert_eq!(Colormap::from_index(0), Colormap::Viridis);
    assert_eq!(Colormap::from_index(1), Colormap::Plasma);
    assert_eq!(Colormap::from_index(2), Colormap::Inferno);
    assert_eq!(Colormap::from_index(3), Colormap::Turbo);
    assert_eq!(Colormap::from_index(17), Colormap::Viridis);
}
