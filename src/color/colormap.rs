//! Named perceptual color ramps, sampled by piecewise-linear interpolation
//! between five evenly spaced control colors.
use vstd::prelude::*;

use crate::fixed::{ONE, clamp, floor_div};

verus! {

/// An RGB color, one fixed-point channel value in `[0, ONE]` each.
#[derive(Clone, Copy, Debug, PartialEq, Eq, Structural)]
pub struct Rgb {
    pub r: i64,
    pub g: i64,
    pub b: i64,
}

/// The available color ramps.
#[derive(Clone, Copy, Debug, PartialEq, Eq, Structural)]
pub enum Colormap {
    Viridis,
    Plasma,
    Inferno,
    Turbo,
}

/// Number of interpolation segments; each ramp has one more control color.
pub const SEGMENTS: i64 = 4;

/// Every channel of `c` lies in `[0, ONE]`.
pub open spec fn rgb_in_gamut(c: Rgb) -> bool {
    0 <= c.r <= ONE && 0 <= c.g <= ONE && 0 <= c.b <= ONE
}

/// The control colors of each ramp, at `t = 0, 1/4, 1/2, 3/4, 1`.
pub open spec fn control_points(m: Colormap) -> Seq<Rgb> {
    match m {
        Colormap::Viridis => seq![
            Rgb { r: 267_004, g: 4_874, b: 329_415 },
            Rgb { r: 229_739, g: 322_361, b: 545_706 },
            Rgb { r: 127_568, g: 566_949, b: 550_556 },
            Rgb { r: 369_214, g: 788_888, b: 382_914 },
            Rgb { r: 993_248, g: 906_157, b: 143_936 },
        ],
        Colormap::Plasma => seq![
            Rgb { r: 50_383, g: 29_803, b: 527_975 },
            Rgb { r: 494_877, g: 11_990, b: 657_865 },
            Rgb { r: 798_216, g: 280_197, b: 469_538 },
            Rgb { r: 973_416, g: 585_761, b: 251_540 },
            Rgb { r: 940_015, g: 975_158, b: 131_326 },
        ],
        Colormap::Inferno => seq![
            Rgb { r: 1_462, g: 466, b: 13_866 },
            Rgb { r: 341_500, g: 62_325, b: 429_425 },
            Rgb { r: 735_683, g: 215_906, b: 330_245 },
            Rgb { r: 978_422, g: 557_937, b: 34_931 },
            Rgb { r: 988_362, g: 998_364, b: 644_924 },
        ],
        Colormap::Turbo => seq![
            Rgb { r: 189_950, g: 71_760, b: 232_170 },
            Rgb { r: 163_540, g: 691_570, b: 986_970 },
            Rgb { r: 647_340, g: 991_080, b: 236_090 },
            Rgb { r: 985_080, g: 500_080, b: 131_170 },
            Rgb { r: 479_600, g: 15_830, b: 10_550 },
        ],
    }
}

/// The value a fraction `frac / ONE` of the way from `a` to `b`, rounded
/// down.
pub open spec fn lerp(a: int, b: int, frac: int) -> int {
    a + (b - a) * frac / (ONE as int)
}

/// The ramp `m` sampled at `t`, with `t` first clamped to `[0, ONE]`.
pub open spec fn sample_of(m: Colormap, t: int) -> Rgb {
    let pts = control_points(m);
    let scaled = clamp(t, 0, ONE as int) * SEGMENTS;
    let k = scaled / (ONE as int);
    if k >= SEGMENTS {
        pts[SEGMENTS as int]
    } else {
        let frac = scaled - k * ONE;
        Rgb {
            r: lerp(pts[k].r as int, pts[k + 1].r as int, frac) as i64,
            g: lerp(pts[k].g as int, pts[k + 1].g as int, frac) as i64,
            b: lerp(pts[k].b as int, pts[k + 1].b as int, frac) as i64,
        }
    }
}

/// Interpolating between two channel values in `[0, ONE]` stays between them.
proof fn lerp_between(a: int, b: int, frac: int)
    requires
        0 <= a <= ONE,
        0 <= b <= ONE,
        0 <= frac < ONE,
    ensures
        min_of(a, b) <= lerp(a, b, frac) <= max_of(a, b),
{
    if a <= b {
        assert(0 <= (b - a) * frac / (ONE as int) <= b - a) by (nonlinear_arith)
            requires
                a <= b,
                0 <= frac < ONE,
        ;
    } else {
        assert(a - b >= (a - b) * (ONE - frac) / (ONE as int) >= 0) by (nonlinear_arith)
            requires
                b < a,
                0 <= frac < ONE,
        ;
        assert((b - a) * frac / (ONE as int) >= b - a) by (nonlinear_arith)
            requires
                b < a,
                0 <= frac < ONE,
        ;
        assert((b - a) * frac / (ONE as int) <= 0) by (nonlinear_arith)
            requires
                b < a,
                0 <= frac < ONE,
        ;
    }
}

spec fn min_of(a: int, b: int) -> int {
    if a <= b {
        a
    } else {
        b
    }
}

spec fn max_of(a: int, b: int) -> int {
    if a >= b {
        a
    } else {
        b
    }
}

fn lerp_exec(a: i64, b: i64, frac: i64) -> (r: i64)
    requires
        0 <= a <= ONE,
        0 <= b <= ONE,
        0 <= frac < ONE,
    ensures
        r == lerp(a as int, b as int, frac as int),
        0 <= r <= ONE,
{
    proof {
        lerp_between(a as int, b as int, frac as int);
    }
    let diff: i128 = b as i128 - a as i128;
    let n: i128 = diff * frac as i128;
    assert(-ONE * ONE <= n <= ONE * ONE) by (nonlinear_arith)
        requires
            -ONE <= diff <= ONE,
            0 <= frac < ONE,
            n == diff * frac,
    ;
    let q = floor_div(n, ONE as i128);
    (a as i128 + q) as i64
}

impl Colormap {
    /// The ramp at a position of the list Viridis, Plasma, Inferno, Turbo;
    /// Viridis for any position past the end.
    pub fn from_index(index: usize) -> (r: Colormap)
        ensures
            r == (if index == 1 {
                Colormap::Plasma
            } else if index == 2 {
                Colormap::Inferno
            } else if index == 3 {
                Colormap::Turbo
            } else {
                Colormap::Viridis
            }),
    {
        match index {
            1 => Colormap::Plasma,
            2 => Colormap::Inferno,
            3 => Colormap::Turbo,
            _ => Colormap::Viridis,
        }
    }

    /// The five control colors of this ramp.
    pub fn control_colors(&self) -> (r: [Rgb; 5])
        ensures
            r@ == control_points(*self),
    {
        let r = match self {
            Colormap::Viridis => [
                Rgb { r: 267_004, g: 4_874, b: 329_415 },
                Rgb { r: 229_739, g: 322_361, b: 545_706 },
                Rgb { r: 127_568, g: 566_949, b: 550_556 },
                Rgb { r: 369_214, g: 788_888, b: 382_914 },
                Rgb { r: 993_248, g: 906_157, b: 143_936 },
            ],
            Colormap::Plasma => [
                Rgb { r: 50_383, g: 29_803, b: 527_975 },
                Rgb { r: 494_877, g: 11_990, b: 657_865 },
                Rgb { r: 798_216, g: 280_197, b: 469_538 },
                Rgb { r: 973_416, g: 585_761, b: 251_540 },
                Rgb { r: 940_015, g: 975_158, b: 131_326 },
            ],
            Colormap::Inferno => [
                Rgb { r: 1_462, g: 466, b: 13_866 },
                Rgb { r: 341_500, g: 62_325, b: 429_425 },
                Rgb { r: 735_683, g: 215_906, b: 330_245 },
                Rgb { r: 978_422, g: 557_937, b: 34_931 },
                Rgb { r: 988_362, g: 998_364, b: 644_924 },
            ],
            Colormap::Turbo => [
                Rgb { r: 189_950, g: 71_760, b: 232_170 },
                Rgb { r: 163_540, g: 691_570, b: 986_970 },
                Rgb { r: 647_340, g: 991_080, b: 236_090 },
                Rgb { r: 985_080, g: 500_080, b: 131_170 },
                Rgb { r: 479_600, g: 15_830, b: 10_550 },
            ],
        };
        assert(r@ =~= control_points(*self));
        r
    }

    /// The color at `t`, which is clamped to `[0, ONE]` first.
    pub fn sample(&self, t: i64) -> (r: Rgb)
        ensures
            r == sample_of(*self, t as int),
            rgb_in_gamut(r),
    {
        let pts = self.control_colors();
        assert(forall|i: int| 0 <= i < 5 ==> rgb_in_gamut(#[trigger] pts@[i]));
        let tc: i64 = if t < 0 {
            0
        } else if t > ONE {
            ONE
        } else {
            t
        };
        let scaled: i64 = tc * SEGMENTS;
        let k: i64 = scaled / ONE;
        if k >= SEGMENTS {
            return pts[4];
        }
        let frac: i64 = scaled - k * ONE;
        let ku = k as usize;
        let a = pts[ku];
        let b = pts[ku + 1];
        Rgb { r: lerp_exec(a.r, b.r, frac), g: lerp_exec(a.g, b.g, frac), b: lerp_exec(a.b, b.b, frac) }
    }
}

} // verus!
