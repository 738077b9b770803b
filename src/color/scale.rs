//! Normalizing data values into the colormap domain `[0, ONE]`.
use vstd::prelude::*;

use crate::fixed::{HALF, ONE, clamp};

verus! {

/// Kind of scaling applied when mapping values to the colormap domain.
#[derive(Clone, Copy, Debug, PartialEq, Eq, Structural)]
pub enum ScaleType {
    /// t = (value - min) / (max - min)
    Linear,
    /// t = ln(value - min + 1) / ln(max - min + 1)
    Log,
}

/// Maps data values to the colormap domain `[0, ONE]`.
pub struct ColorScale;

/// Linear normalization of `value` against `[min, max]`, rounded down and
/// clamped to `[0, ONE]`; one half for an empty or inverted range.
pub open spec fn linear_t(value: int, min: int, max: int) -> int {
    if max <= min {
        HALF as int
    } else {
        clamp((value - min) * ONE / (max - min), 0, ONE as int)
    }
}

/// Linear normalization answers one half exactly on a degenerate range and
/// never decreases as the value grows within a proper range.
pub proof fn linear_t_is_monotonic(a: int, b: int, min: int, max: int)
    ensures
        max <= min ==> linear_t(a, min, max) == HALF,
        min < max && a <= b ==> linear_t(a, min, max) <= linear_t(b, min, max),
{
    if min < max && a <= b {
        assert((a - min) * ONE <= (b - min) * ONE) by (nonlinear_arith)
            requires
                a <= b,
        ;
        assert((a - min) * ONE / (max - min) <= (b - min) * ONE / (max - min)) by (
        nonlinear_arith)
            requires
                (a - min) * ONE <= (b - min) * ONE,
                max - min > 0,
        ;
    }
}

impl ColorScale {
    /// Map a value to `[0, ONE]` using linear scaling; `HALF` when
    /// `max <= min`.
    pub fn map_linear(value: i64, min: i64, max: i64) -> (r: i64)
        ensures
            r == linear_t(value as int, min as int, max as int),
            0 <= r <= ONE,
    {
        if max <= min {
            return HALF;
        }
        let span: i128 = max as i128 - min as i128;
        let offset: i128 = value as i128 - min as i128;
        if offset <= 0 {
            assert((offset as int) * (ONE as int) / (span as int) <= 0) by (nonlinear_arith)
                requires
                    offset <= 0,
                    span > 0,
            ;
            0
        } else if offset >= span {
            assert((offset as int) * (ONE as int) / (span as int) >= ONE) by (nonlinear_arith)
                requires
                    offset >= span,
                    span > 0,
            ;
            ONE
        } else {
            assert(0 <= (offset as int) * (ONE as int) / (span as int) <= ONE) by (nonlinear_arith)
                requires
                    0 < offset < span,
            ;
            assert(offset * (ONE as i128) < 0x1_0000_0000_0000_0000 * 0x10_0000) by (
            nonlinear_arith)
                requires
                    0 < offset < 0x1_0000_0000_0000_0000,
            ;
            ((offset * (ONE as i128)) / span) as i64
        }
    }
}

} // verus!
