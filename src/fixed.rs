//! Fixed-point arithmetic shared by every component of the crate.
use vstd::prelude::*;

verus! {

/// Number of stored units in one real unit: a value `v` means `v / ONE`.
pub const ONE: i64 = 1_000_000;

/// One half, in fixed point.
pub const HALF: i64 = 500_000;

/// Largest magnitude a coordinate may have so that sums and differences of
/// a few coordinates stay within `i64` (a thousand million real units).
pub const COORD_MAX: i64 = 1_000_000_000_000_000;

/// `v` limited to the closed interval `[lo, hi]`.
pub open spec fn clamp(v: int, lo: int, hi: int) -> int {
    if v < lo {
        lo
    } else if v > hi {
        hi
    } else {
        v
    }
}

/// `v` is a coordinate small enough for the box and camera arithmetic.
pub open spec fn in_coord_range(v: i64) -> bool {
    -COORD_MAX <= v <= COORD_MAX
}

/// The smaller of two integers.
pub open spec fn min_int(a: int, b: int) -> int {
    if a <= b {
        a
    } else {
        b
    }
}

/// The larger of two integers.
pub open spec fn max_int(a: int, b: int) -> int {
    if a >= b {
        a
    } else {
        b
    }
}

/// Rounds `(a + b) / 2` down, for any two `i64` values.
pub fn midpoint(a: i64, b: i64) -> (r: i64)
    ensures
        r == (a + b) / 2,
{
    let s: i128 = a as i128 + b as i128;
    if s >= 0 {
        (s / 2) as i64
    } else {
        let q: i128 = (-s + 1) / 2;
        assert(-q == s / 2);
        (-q) as i64
    }
}

/// `n / d` rounded down (towards negative infinity).
pub fn floor_div(n: i128, d: i128) -> (r: i128)
    requires
        d > 0,
        -0x7e00_0000_0000_0000_0000_0000_0000_0000 <= n <= 0x7e00_0000_0000_0000_0000_0000_0000_0000,
        d <= 0x100_0000_0000_0000_0000_0000_0000_0000,
    ensures
        r == n / d,
{
    if n >= 0 {
        n / d
    } else {
        let m: i128 = -n + d - 1;
        let q: i128 = m / d;
        assert(-q == n / d) by (nonlinear_arith)
            requires
                n < 0,
                d > 0,
                m == -n + d - 1,
                q == m / d,
        ;
        -q
    }
}

/// `r` is the square root of `n` rounded down.
pub open spec fn is_floor_sqrt(r: int, n: int) -> bool {
    r >= 0 && r * r <= n < (r + 1) * (r + 1)
}

/// The square root of a non-negative `n`, rounded down.
pub open spec fn floor_sqrt(n: int) -> int {
    choose|r: int| is_floor_sqrt(r, n)
}

/// A number has at most one rounded-down square root, so `floor_sqrt` names
/// it.
pub proof fn floor_sqrt_is_unique(r: int, n: int)
    requires
        is_floor_sqrt(r, n),
    ensures
        floor_sqrt(n) == r,
{
    let s = floor_sqrt(n);
    assert(is_floor_sqrt(s, n));
    if s < r {
        assert((s + 1) * (s + 1) <= r * r) by (nonlinear_arith)
            requires
                0 <= s < r,
        ;
    } else if r < s {
        assert((r + 1) * (r + 1) <= s * s) by (nonlinear_arith)
            requires
                0 <= r < s,
        ;
    }
}

/// Integer square root: the largest `r` with `r * r <= n`.
pub fn isqrt(n: u128) -> (r: u64)
    requires
        n < 0x1000_0000_0000_0000_0000_0000_0000_0000,
    ensures
        is_floor_sqrt(r as int, n as int),
        r == floor_sqrt(n as int),
{
    let mut lo: u128 = 0;
    let mut hi: u128 = 0x4000_0000_0000_0000;
    assert(n < hi * hi) by (nonlinear_arith)
        requires
            n < 0x1000_0000_0000_0000_0000_0000_0000_0000,
            hi == 0x4000_0000_0000_0000,
    ;
    while lo + 1 < hi
        invariant
            lo < hi <= 0x4000_0000_0000_0000,
            lo * lo <= n,
            n < hi * hi,
        decreases hi - lo,
    {
        let mid: u128 = lo + (hi - lo) / 2;
        assert(mid * mid <= hi * hi) by (nonlinear_arith)
            requires
                mid < hi,
        ;
        assert(hi * hi <= 0x4000_0000_0000_0000 * 0x4000_0000_0000_0000) by (nonlinear_arith)
            requires
                hi <= 0x4000_0000_0000_0000,
        ;
        if mid * mid <= n {
            lo = mid;
        } else {
            hi = mid;
        }
    }
    proof {
        floor_sqrt_is_unique(lo as int, n as int);
    }
    lo as u64
}

} // verus!
