//! Axis-aligned bounding boxes over fixed-point points.
use vstd::prelude::*;

use crate::fixed::{COORD_MAX, floor_sqrt, in_coord_range, is_floor_sqrt, isqrt, max_int, midpoint, min_int};

verus! {

/// A point or displacement in 3D space, one fixed-point value per axis.
#[derive(Clone, Copy, Debug, PartialEq, Eq, Structural)]
pub struct Vec3 {
    pub x: i64,
    pub y: i64,
    pub z: i64,
}

/// The origin.
pub open spec fn origin() -> Vec3 {
    Vec3 { x: 0, y: 0, z: 0 }
}

/// Component-wise minimum.
pub open spec fn vmin(a: Vec3, b: Vec3) -> Vec3 {
    Vec3 {
        x: min_int(a.x as int, b.x as int) as i64,
        y: min_int(a.y as int, b.y as int) as i64,
        z: min_int(a.z as int, b.z as int) as i64,
    }
}

/// Component-wise maximum.
pub open spec fn vmax(a: Vec3, b: Vec3) -> Vec3 {
    Vec3 {
        x: max_int(a.x as int, b.x as int) as i64,
        y: max_int(a.y as int, b.y as int) as i64,
        z: max_int(a.z as int, b.z as int) as i64,
    }
}

/// Every component of `v` is a coordinate in range.
pub open spec fn vec_in_range(v: Vec3) -> bool {
    in_coord_range(v.x) && in_coord_range(v.y) && in_coord_range(v.z)
}

/// Squared Euclidean length of the size vector of `b`.
pub open spec fn size_sq(b: Bounds3D) -> int {
    sq(b.max.x - b.min.x) + sq(b.max.y - b.min.y) + sq(b.max.z - b.min.z)
}

/// The squared size of a box in range is small enough for `i128` and for
/// the integer square root.
pub proof fn size_sq_bound(b: Bounds3D)
    requires
        box_in_range(b),
    ensures
        0 <= size_sq(b) <= 12 * COORD_MAX * COORD_MAX,
{
    let dx = b.max.x - b.min.x;
    let dy = b.max.y - b.min.y;
    let dz = b.max.z - b.min.z;
    assert(0 <= dx * dx <= 4 * COORD_MAX * COORD_MAX) by (nonlinear_arith)
        requires
            -2 * COORD_MAX <= dx <= 2 * COORD_MAX,
    ;
    assert(0 <= dy * dy <= 4 * COORD_MAX * COORD_MAX) by (nonlinear_arith)
        requires
            -2 * COORD_MAX <= dy <= 2 * COORD_MAX,
    ;
    assert(0 <= dz * dz <= 4 * COORD_MAX * COORD_MAX) by (nonlinear_arith)
        requires
            -2 * COORD_MAX <= dz <= 2 * COORD_MAX,
    ;
}

/// Square of an integer.
pub open spec fn sq(v: int) -> int {
    v * v
}

fn min_i64(a: i64, b: i64) -> (r: i64)
    ensures
        r == min_int(a as int, b as int),
{
    if a <= b {
        a
    } else {
        b
    }
}

fn max_i64(a: i64, b: i64) -> (r: i64)
    ensures
        r == max_int(a as int, b as int),
{
    if a >= b {
        a
    } else {
        b
    }
}

impl Vec3 {
    pub fn new(x: i64, y: i64, z: i64) -> (r: Vec3)
        ensures
            r == (Vec3 { x, y, z }),
    {
        Vec3 { x, y, z }
    }

    /// The vector with all three components equal to `v`.
    pub fn splat(v: i64) -> (r: Vec3)
        ensures
            r == (Vec3 { x: v, y: v, z: v }),
    {
        Vec3 { x: v, y: v, z: v }
    }

    /// The origin.
    pub fn zero() -> (r: Vec3)
        ensures
            r == origin(),
    {
        Vec3 { x: 0, y: 0, z: 0 }
    }

    /// Component-wise minimum of two vectors.
    pub fn min(&self, other: Vec3) -> (r: Vec3)
        ensures
            r == vmin(*self, other),
    {
        Vec3 {
            x: min_i64(self.x, other.x),
            y: min_i64(self.y, other.y),
            z: min_i64(self.z, other.z),
        }
    }

    /// Component-wise maximum of two vectors.
    pub fn max(&self, other: Vec3) -> (r: Vec3)
        ensures
            r == vmax(*self, other),
    {
        Vec3 {
            x: max_i64(self.x, other.x),
            y: max_i64(self.y, other.y),
            z: max_i64(self.z, other.z),
        }
    }
}

/// Axis-aligned bounding box given by its two extreme corners.
#[derive(Clone, Copy, Debug, PartialEq, Eq, Structural)]
pub struct Bounds3D {
    pub min: Vec3,
    pub max: Vec3,
}

/// The zero-size box at the origin.
pub open spec fn zero_box() -> Bounds3D {
    Bounds3D { min: origin(), max: origin() }
}

/// Both corners of `b` have every coordinate in range.
pub open spec fn box_in_range(b: Bounds3D) -> bool {
    vec_in_range(b.min) && vec_in_range(b.max)
}

/// `p` lies inside `b`, faces included.
pub open spec fn box_contains(b: Bounds3D, p: Vec3) -> bool {
    &&& b.min.x <= p.x <= b.max.x
    &&& b.min.y <= p.y <= b.max.y
    &&& b.min.z <= p.z <= b.max.z
}

/// Every point of the non-empty box `inner` lies in `outer`, expressed on
/// the corners.
pub open spec fn box_encloses(outer: Bounds3D, inner: Bounds3D) -> bool {
    box_contains(outer, inner.min) && box_contains(outer, inner.max)
}

/// The two boxes overlap, touching faces included.
pub open spec fn box_intersects(a: Bounds3D, b: Bounds3D) -> bool {
    &&& a.min.x <= b.max.x && a.min.y <= b.max.y && a.min.z <= b.max.z
    &&& a.max.x >= b.min.x && a.max.y >= b.min.y && a.max.z >= b.min.z
}

/// `b` widened just enough to hold `p`.
pub open spec fn box_expand(b: Bounds3D, p: Vec3) -> Bounds3D {
    Bounds3D { min: vmin(b.min, p), max: vmax(b.max, p) }
}

/// The smallest box holding both `a` and `b`.
pub open spec fn box_union(a: Bounds3D, b: Bounds3D) -> Bounds3D {
    Bounds3D { min: vmin(a.min, b.min), max: vmax(a.max, b.max) }
}

/// The box built from a list of points: the zero box for no points, else the
/// first point widened by each following point in turn.
pub open spec fn bounds_of(points: Seq<Vec3>) -> Bounds3D
    decreases points.len(),
{
    if points.len() == 0 {
        zero_box()
    } else if points.len() == 1 {
        Bounds3D { min: points[0], max: points[0] }
    } else {
        box_expand(bounds_of(points.drop_last()), points.last())
    }
}

/// Every point of the list lies in `b`, and each of the six faces of `b`
/// touches at least one point, so no face can move inwards.
pub open spec fn is_tightest_box(b: Bounds3D, points: Seq<Vec3>) -> bool {
    &&& forall|i: int| 0 <= i < points.len() ==> #[trigger] box_contains(b, points[i])
    &&& exists|i: int| 0 <= i < points.len() && #[trigger] points[i].x == b.min.x
    &&& exists|i: int| 0 <= i < points.len() && #[trigger] points[i].y == b.min.y
    &&& exists|i: int| 0 <= i < points.len() && #[trigger] points[i].z == b.min.z
    &&& exists|i: int| 0 <= i < points.len() && #[trigger] points[i].x == b.max.x
    &&& exists|i: int| 0 <= i < points.len() && #[trigger] points[i].y == b.max.y
    &&& exists|i: int| 0 <= i < points.len() && #[trigger] points[i].z == b.max.z
}

/// The eight corners, x varying fastest and z slowest.
pub open spec fn corners_of(b: Bounds3D) -> Seq<Vec3> {
    seq![
        Vec3 { x: b.min.x, y: b.min.y, z: b.min.z },
        Vec3 { x: b.max.x, y: b.min.y, z: b.min.z },
        Vec3 { x: b.min.x, y: b.max.y, z: b.min.z },
        Vec3 { x: b.max.x, y: b.max.y, z: b.min.z },
        Vec3 { x: b.min.x, y: b.min.y, z: b.max.z },
        Vec3 { x: b.max.x, y: b.min.y, z: b.max.z },
        Vec3 { x: b.min.x, y: b.max.y, z: b.max.z },
        Vec3 { x: b.max.x, y: b.max.y, z: b.max.z },
    ]
}

/// The box built from a non-empty list of points contains each of them and
/// is the tightest axis-aligned box that does.
pub proof fn from_points_is_tightest(points: Seq<Vec3>)
    requires
        points.len() > 0,
    ensures
        is_tightest_box(bounds_of(points), points),
    decreases points.len(),
{
    let b = bounds_of(points);
    if points.len() == 1 {
        assert(points[0].x == b.min.x && points[0].x == b.max.x);
        assert(points[0].y == b.min.y && points[0].y == b.max.y);
        assert(points[0].z == b.min.z && points[0].z == b.max.z);
    } else {
        let init = points.drop_last();
        let p = points.last();
        from_points_is_tightest(init);
        let a = bounds_of(init);
        assert forall|i: int| 0 <= i < points.len() implies #[trigger] box_contains(
            b,
            points[i],
        ) by {
            if i < points.len() - 1 {
                assert(box_contains(a, init[i]));
            }
        }
        assert(points[points.len() - 1] == p);
        if p.x <= a.min.x {
            assert(points[points.len() - 1].x == b.min.x);
        } else {
            let j = choose|j: int| 0 <= j < init.len() && #[trigger] init[j].x == a.min.x;
            assert(points[j].x == b.min.x);
        }
        if p.y <= a.min.y {
            assert(points[points.len() - 1].y == b.min.y);
        } else {
            let j = choose|j: int| 0 <= j < init.len() && #[trigger] init[j].y == a.min.y;
            assert(points[j].y == b.min.y);
        }
        if p.z <= a.min.z {
            assert(points[points.len() - 1].z == b.min.z);
        } else {
            let j = choose|j: int| 0 <= j < init.len() && #[trigger] init[j].z == a.min.z;
            assert(points[j].z == b.min.z);
        }
        if p.x >= a.max.x {
            assert(points[points.len() - 1].x == b.max.x);
        } else {
            let j = choose|j: int| 0 <= j < init.len() && #[trigger] init[j].x == a.max.x;
            assert(points[j].x == b.max.x);
        }
        if p.y >= a.max.y {
            assert(points[points.len() - 1].y == b.max.y);
        } else {
            let j = choose|j: int| 0 <= j < init.len() && #[trigger] init[j].y == a.max.y;
            assert(points[j].y == b.max.y);
        }
        if p.z >= a.max.z {
            assert(points[points.len() - 1].z == b.max.z);
        } else {
            let j = choose|j: int| 0 <= j < init.len() && #[trigger] init[j].z == a.max.z;
            assert(points[j].z == b.max.z);
        }
    }
}

/// The union of two boxes encloses both, and overlap does not depend on the
/// order of the two boxes.
pub proof fn union_encloses_and_intersects_is_symmetric(a: Bounds3D, b: Bounds3D)
    requires
        a.min.x <= a.max.x && a.min.y <= a.max.y && a.min.z <= a.max.z,
        b.min.x <= b.max.x && b.min.y <= b.max.y && b.min.z <= b.max.z,
    ensures
        box_encloses(box_union(a, b), a),
        box_encloses(box_union(a, b), b),
        box_intersects(a, b) == box_intersects(b, a),
{
}

impl Bounds3D {
    /// Create a new bounding box from min and max points.
    pub fn new(min: Vec3, max: Vec3) -> (r: Bounds3D)
        ensures
            r == (Bounds3D { min, max }),
    {
        Bounds3D { min, max }
    }

    /// Create the smallest box holding all given points; the zero box when
    /// there are none.
    pub fn from_points(points: &[Vec3]) -> (r: Bounds3D)
        ensures
            r == bounds_of(points@),
            points@.len() == 0 ==> r == zero_box(),
    {
        if points.len() == 0 {
            return Bounds3D::zero();
        }
        let mut min = points[0];
        let mut max = points[0];
        let mut i: usize = 1;
        assert(points@.subrange(0, 1).drop_last().len() == 0);
        while i < points.len()
            invariant
                1 <= i <= points@.len(),
                (Bounds3D { min, max }) == bounds_of(points@.subrange(0, i as int)),
            decreases points@.len() - i,
        {
            let point = points[i];
            min = min.min(point);
            max = max.max(point);
            assert(points@.subrange(0, i + 1).drop_last() =~= points@.subrange(0, i as int));
            i = i + 1;
        }
        assert(points@.subrange(0, points@.len() as int) =~= points@);
        Bounds3D { min, max }
    }

    /// Create a zero-size bounding box at the origin.
    pub fn zero() -> (r: Bounds3D)
        ensures
            r == zero_box(),
    {
        Bounds3D { min: Vec3::zero(), max: Vec3::zero() }
    }

    /// Create a bounding box centered at the origin with the given edge
    /// length (half of it, rounded down, on each side).
    pub fn centered(size: i64) -> (r: Bounds3D)
        ensures
            r.min.x == -(size / 2) && r.min.y == -(size / 2) && r.min.z == -(size / 2),
            r.max.x == size / 2 && r.max.y == size / 2 && r.max.z == size / 2,
    {
        let half = midpoint(0, size);
        Bounds3D { min: Vec3::splat(-half), max: Vec3::splat(half) }
    }

    /// The center point of the box, rounded down on each axis.
    pub fn center(&self) -> (r: Vec3)
        ensures
            r.x == (self.min.x + self.max.x) / 2,
            r.y == (self.min.y + self.max.y) / 2,
            r.z == (self.min.z + self.max.z) / 2,
    {
        Vec3 {
            x: midpoint(self.min.x, self.max.x),
            y: midpoint(self.min.y, self.max.y),
            z: midpoint(self.min.z, self.max.z),
        }
    }

    /// The dimensions of the box along each axis.
    pub fn size(&self) -> (r: Vec3)
        requires
            box_in_range(*self),
        ensures
            r.x == self.max.x - self.min.x,
            r.y == self.max.y - self.min.y,
            r.z == self.max.z - self.min.z,
    {
        Vec3 {
            x: self.max.x - self.min.x,
            y: self.max.y - self.min.y,
            z: self.max.z - self.min.z,
        }
    }

    /// Half the dimensions of the box, rounded down on each axis.
    pub fn extents(&self) -> (r: Vec3)
        requires
            box_in_range(*self),
        ensures
            r.x == (self.max.x - self.min.x) / 2,
            r.y == (self.max.y - self.min.y) / 2,
            r.z == (self.max.z - self.min.z) / 2,
    {
        let s = self.size();
        Vec3 { x: midpoint(0, s.x), y: midpoint(0, s.y), z: midpoint(0, s.z) }
    }

    /// Euclidean length of the box's size vector, rounded down.
    pub fn diagonal(&self) -> (r: i64)
        requires
            box_in_range(*self),
        ensures
            r == floor_sqrt(size_sq(*self)),
            is_floor_sqrt(r as int, size_sq(*self)),
    {
        let s = self.size();
        let dx: i128 = s.x as i128;
        let dy: i128 = s.y as i128;
        let dz: i128 = s.z as i128;
        assert(dx * dx <= 4 * COORD_MAX * COORD_MAX) by (nonlinear_arith)
            requires
                -2 * COORD_MAX <= dx <= 2 * COORD_MAX,
        ;
        assert(dy * dy <= 4 * COORD_MAX * COORD_MAX) by (nonlinear_arith)
            requires
                -2 * COORD_MAX <= dy <= 2 * COORD_MAX,
        ;
        assert(dz * dz <= 4 * COORD_MAX * COORD_MAX) by (nonlinear_arith)
            requires
                -2 * COORD_MAX <= dz <= 2 * COORD_MAX,
        ;
        assert(0 <= dx * dx && 0 <= dy * dy && 0 <= dz * dz) by (nonlinear_arith);
        let total: i128 = dx * dx + dy * dy + dz * dz;
        let r = isqrt(total as u128);
        assert(r < 0x8000_0000_0000_0000) by (nonlinear_arith)
            requires
                r * r <= total,
                total <= 12 * COORD_MAX * COORD_MAX,
                COORD_MAX == 1_000_000_000_000_000,
        ;
        r as i64
    }

    /// Check if the box contains a point (inclusive on all faces).
    pub fn contains(&self, point: Vec3) -> (r: bool)
        ensures
            r == box_contains(*self, point),
    {
        self.min.x <= point.x && point.x <= self.max.x && self.min.y <= point.y && point.y
            <= self.max.y && self.min.z <= point.z && point.z <= self.max.z
    }

    /// Check if this box overlaps another (touching faces count).
    pub fn intersects(&self, other: &Bounds3D) -> (r: bool)
        ensures
            r == box_intersects(*self, *other),
    {
        self.min.x <= other.max.x && self.min.y <= other.max.y && self.min.z <= other.max.z
            && self.max.x >= other.min.x && self.max.y >= other.min.y && self.max.z
            >= other.min.z
    }

    /// Widen the box to include a point.
    pub fn expand_to_include(&mut self, point: Vec3)
        ensures
            *final(self) == box_expand(*old(self), point),
    {
        self.min = self.min.min(point);
        self.max = self.max.max(point);
    }

    /// Widen the box to include another box.
    pub fn expand_to_include_bounds(&mut self, other: &Bounds3D)
        ensures
            *final(self) == box_union(*old(self), *other),
    {
        self.min = self.min.min(other.min);
        self.max = self.max.max(other.max);
    }

    /// A new box holding both this box and another.
    pub fn union(&self, other: &Bounds3D) -> (r: Bounds3D)
        ensures
            r == box_union(*self, *other),
    {
        Bounds3D { min: self.min.min(other.min), max: self.max.max(other.max) }
    }

    /// This box grown by `padding` on every side of every axis.
    pub fn padded(&self, padding: i64) -> (r: Bounds3D)
        requires
            box_in_range(*self),
            in_coord_range(padding),
        ensures
            r.min == (Vec3 {
                x: (self.min.x - padding) as i64,
                y: (self.min.y - padding) as i64,
                z: (self.min.z - padding) as i64,
            }),
            r.max == (Vec3 {
                x: (self.max.x + padding) as i64,
                y: (self.max.y + padding) as i64,
                z: (self.max.z + padding) as i64,
            }),
    {
        Bounds3D {
            min: Vec3 {
                x: self.min.x - padding,
                y: self.min.y - padding,
                z: self.min.z - padding,
            },
            max: Vec3 {
                x: self.max.x + padding,
                y: self.max.y + padding,
                z: self.max.z + padding,
            },
        }
    }

    /// The eight corner points, x varying fastest and z slowest.
    pub fn corners(&self) -> (r: [Vec3; 8])
        ensures
            r@ == corners_of(*self),
    {
        let lo = self.min;
        let hi = self.max;
        let r = [
            Vec3 { x: lo.x, y: lo.y, z: lo.z },
            Vec3 { x: hi.x, y: lo.y, z: lo.z },
            Vec3 { x: lo.x, y: hi.y, z: lo.z },
            Vec3 { x: hi.x, y: hi.y, z: lo.z },
            Vec3 { x: lo.x, y: lo.y, z: hi.z },
            Vec3 { x: hi.x, y: lo.y, z: hi.z },
            Vec3 { x: lo.x, y: hi.y, z: hi.z },
            Vec3 { x: hi.x, y: hi.y, z: hi.z },
        ];
        assert(r@ =~= corners_of(*self));
        r
    }
}

impl Default for Bounds3D {
    fn default() -> (r: Bounds3D)
        ensures
            r == zero_box(),
    {
        Bounds3D::zero()
    }
}

} // verus!
