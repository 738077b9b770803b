//! An orbit camera: a target point, a distance and two angles.
//!
//! Angles are fixed-point radians; the position and the view and projection
//! matrices are trigonometric functions of this pose and are computed by the
//! rendering layer.
use vstd::arithmetic::div_mod::{lemma_fundamental_div_mod, lemma_fundamental_div_mod_converse};
use vstd::prelude::*;

use crate::fixed::{COORD_MAX, ONE, clamp, floor_div, floor_sqrt, in_coord_range};
use crate::math::bounds::{
    Bounds3D, Vec3, box_in_range, origin, size_sq, size_sq_bound, vec_in_range,
};

verus! {

/// Pi, rounded to the nearest fixed-point value.
pub const PI: i64 = 3_141_593;

/// A full turn (two pi), rounded to the nearest fixed-point value.
pub const TAU: i64 = 6_283_185;

/// A quarter turn (pi / 2), rounded to the nearest fixed-point value.
pub const FRAC_PI_2: i64 = 1_570_796;

/// Margin kept between the pitch and a quarter turn (0.01 rad).
pub const PITCH_MARGIN: i64 = 10_000;

/// Largest pitch magnitude: a quarter turn less the margin.
pub const PITCH_LIMIT: i64 = FRAC_PI_2 - PITCH_MARGIN;

/// Field of view given to new cameras: 45 degrees (pi / 4).
pub const DEFAULT_FOV: i64 = 785_398;

/// Tangent of half the default field of view (tan(pi / 8)).
pub const TAN_HALF_DEFAULT_FOV: i64 = 414_214;

/// Near clipping plane of new cameras (0.1).
pub const DEFAULT_NEAR: i64 = 100_000;

/// Far clipping plane of new cameras (1000).
pub const DEFAULT_FAR: i64 = 1_000_000_000;

/// Closest the camera may come to its target (0.1).
pub const MIN_DISTANCE: i64 = 100_000;

/// Farthest the camera may move from its target (1000).
pub const MAX_DISTANCE: i64 = 1_000_000_000;

/// Distance restored by `reset` (10).
pub const RESET_DISTANCE: i64 = 10_000_000;

/// Aspect ratio of the default camera (16 / 9).
pub const DEFAULT_ASPECT: i64 = 1_777_778;

/// Divisor turning the camera distance into the pan speed (0.001).
pub const PAN_SPEED_DIVISOR: i64 = 1000;

/// Orbit camera: looks at `target` from `distance` away, at the angles
/// `yaw` (about the vertical axis, from +Z towards +X) and `pitch` (up from
/// the horizontal plane).
#[derive(Clone, Copy, Debug, PartialEq, Eq, Structural)]
pub struct OrbitalCamera {
    /// Point the camera looks at.
    pub target: Vec3,
    /// Distance from the target.
    pub distance: i64,
    /// Horizontal angle, in radians.
    pub yaw: i64,
    /// Vertical angle, in radians.
    pub pitch: i64,
    /// Vertical field of view, in radians.
    pub fov: i64,
    /// Width divided by height of the viewport.
    pub aspect: i64,
    /// Near clipping plane.
    pub near: i64,
    /// Far clipping plane.
    pub far: i64,
}

/// Yaw after turning by `delta`: the sum taken modulo a full turn, never
/// negative.
pub open spec fn wrapped_yaw(yaw: int, delta: int) -> int {
    (yaw + delta) % (TAU as int)
}

/// Pitch after tilting by `delta`, kept within the pitch limit.
pub open spec fn clamped_pitch(pitch: int, delta: int) -> int {
    clamp(pitch + delta, -PITCH_LIMIT, PITCH_LIMIT as int)
}

/// Distance after zooming by the fraction `delta`, kept within the allowed
/// range.
pub open spec fn zoomed_distance(distance: int, delta: int) -> int {
    clamp(distance * (ONE - delta) / (ONE as int), MIN_DISTANCE as int, MAX_DISTANCE as int)
}

/// Displacement along one axis for a pan of `amount` screen units along an
/// axis whose component is `axis`, at camera distance `distance`.
pub open spec fn pan_offset(axis: int, amount: int, distance: int) -> int {
    axis * amount * distance / (ONE * ONE * PAN_SPEED_DIVISOR)
}

/// Target after panning by `dx` along `right` and `dy` along `up` at camera
/// distance `distance`.
pub open spec fn panned_target(target: Vec3, right: Vec3, up: Vec3, dx: int, dy: int, distance: int) -> Vec3 {
    Vec3 {
        x: (target.x + pan_offset(right.x as int, dx, distance) + pan_offset(up.x as int, dy, distance)) as i64,
        y: (target.y + pan_offset(right.y as int, dx, distance) + pan_offset(up.y as int, dy, distance)) as i64,
        z: (target.z + pan_offset(right.z as int, dx, distance) + pan_offset(up.z as int, dy, distance)) as i64,
    }
}

/// Distance at which a box of diagonal `diagonal` fits the field of view with
/// the given padding fraction, before clamping.
pub open spec fn framing_distance(diagonal: int, padding: int, tan_half_fov: int) -> int {
    diagonal * (ONE + padding) / (2 * tan_half_fov)
}

/// Yaw always lies in `[0, TAU)` after a rotation, and pitch stays strictly
/// between minus and plus a quarter turn, whatever the deltas.
pub proof fn rotation_keeps_angles_in_range(yaw: int, pitch: int, delta_yaw: int, delta_pitch: int)
    ensures
        0 <= wrapped_yaw(yaw, delta_yaw) < TAU,
        -FRAC_PI_2 < clamped_pitch(pitch, delta_pitch) < FRAC_PI_2,
{
}

/// Zooming in by a fraction strictly between zero and one moves a camera at
/// a positive distance strictly closer, unless it ends at the minimum
/// distance.
pub proof fn zoom_in_decreases_distance(distance: int, delta: int)
    requires
        distance > 0,
        0 < delta < ONE,
    ensures
        zoomed_distance(distance, delta) < distance || zoomed_distance(distance, delta)
            == MIN_DISTANCE,
{
    assert(distance * (ONE - delta) < distance * ONE) by (nonlinear_arith)
        requires
            distance > 0,
            delta > 0,
    ;
    assert(distance * (ONE - delta) / (ONE as int) < distance) by (nonlinear_arith)
        requires
            distance * (ONE - delta) < distance * ONE,
    ;
}

fn clamp_i128(v: i128, lo: i64, hi: i64) -> (r: i64)
    requires
        lo <= hi,
    ensures
        r == clamp(v as int, lo as int, hi as int),
{
    if v < lo as i128 {
        lo
    } else if v > hi as i128 {
        hi
    } else {
        v as i64
    }
}

impl OrbitalCamera {
    /// Create a camera looking at `target` from `distance` away, with zero
    /// yaw and pitch, a 45 degree field of view and clip planes at 0.1 and
    /// 1000.
    pub fn new(target: Vec3, distance: i64, aspect: i64) -> (r: OrbitalCamera)
        ensures
            r == (OrbitalCamera {
                target,
                distance,
                yaw: 0,
                pitch: 0,
                fov: DEFAULT_FOV,
                aspect,
                near: DEFAULT_NEAR,
                far: DEFAULT_FAR,
            }),
    {
        OrbitalCamera {
            target,
            distance,
            yaw: 0,
            pitch: 0,
            fov: DEFAULT_FOV,
            aspect,
            near: DEFAULT_NEAR,
            far: DEFAULT_FAR,
        }
    }

    /// Rotate by delta angles: yaw wraps into `[0, TAU)`, pitch is clamped to
    /// `[-PITCH_LIMIT, PITCH_LIMIT]`.
    pub fn rotate(&mut self, delta_yaw: i64, delta_pitch: i64)
        ensures
            *final(self) == (OrbitalCamera {
                yaw: wrapped_yaw(old(self).yaw as int, delta_yaw as int) as i64,
                pitch: clamped_pitch(old(self).pitch as int, delta_pitch as int) as i64,
                ..*old(self)
            }),
            0 <= final(self).yaw < TAU,
            -FRAC_PI_2 < final(self).pitch < FRAC_PI_2,
    {
        let sum: i128 = self.yaw as i128 + delta_yaw as i128;
        let tau: i128 = TAU as i128;
        let wrapped: i128 = if sum >= 0 {
            sum % tau
        } else {
            let q: i128 = (-sum) / tau;
            let m: i128 = (-sum) % tau;
            proof {
                lemma_fundamental_div_mod(-sum as int, tau as int);
            }
            if m == 0 {
                proof {
                    lemma_fundamental_div_mod_converse(sum as int, tau as int, -q as int, 0);
                }
                0
            } else {
                proof {
                    lemma_fundamental_div_mod_converse(
                        sum as int,
                        tau as int,
                        -q - 1 as int,
                        tau - m as int,
                    );
                }
                tau - m
            }
        };
        self.yaw = wrapped as i64;
        self.pitch = clamp_i128(self.pitch as i128 + delta_pitch as i128, -PITCH_LIMIT, PITCH_LIMIT);
    }

    /// Zoom by a fraction of the distance (`delta` of `ONE / 10` moves ten
    /// percent closer); the result is clamped to
    /// `[MIN_DISTANCE, MAX_DISTANCE]`.
    pub fn zoom(&mut self, delta: i64)
        ensures
            *final(self) == (OrbitalCamera {
                distance: zoomed_distance(old(self).distance as int, delta as int) as i64,
                ..*old(self)
            }),
            old(self).distance > 0 && 0 < delta < ONE
                ==> final(self).distance < old(self).distance
                || final(self).distance == MIN_DISTANCE,
    {
        let factor: i128 = ONE as i128 - delta as i128;
        let dist: i128 = self.distance as i128;
        assert(-0x7e00_0000_0000_0000_0000_0000_0000_0000 <= dist * factor
            <= 0x7e00_0000_0000_0000_0000_0000_0000_0000) by (nonlinear_arith)
            requires
                -0x8000_0000_0010_0000 <= factor <= 0x8000_0000_0010_0000,
                -0x8000_0000_0000_0000 <= dist <= 0x8000_0000_0000_0000,
        ;
        let product: i128 = dist * factor;
        let scaled = floor_div(product, ONE as i128);
        self.distance = clamp_i128(scaled, MIN_DISTANCE, MAX_DISTANCE);
        proof {
            if old(self).distance > 0 && 0 < delta < ONE {
                zoom_in_decreases_distance(old(self).distance as int, delta as int);
            }
        }
    }

    /// Move the target along the given screen axes (unit vectors computed
    /// from the current pose), by `delta_x` along `right` and `delta_y` along
    /// `up`, at a speed of a thousandth of the distance per screen unit.
    pub fn pan(&mut self, delta_x: i64, delta_y: i64, right: Vec3, up: Vec3)
        requires
            vec_in_range(old(self).target),
            0 <= old(self).distance <= MAX_DISTANCE,
            -ONE <= right.x <= ONE && -ONE <= right.y <= ONE && -ONE <= right.z <= ONE,
            -ONE <= up.x <= ONE && -ONE <= up.y <= ONE && -ONE <= up.z <= ONE,
            in_coord_range(delta_x),
            in_coord_range(delta_y),
        ensures
            *final(self) == (OrbitalCamera {
                target: panned_target(
                    old(self).target,
                    right,
                    up,
                    delta_x as int,
                    delta_y as int,
                    old(self).distance as int,
                ),
                ..*old(self)
            }),
    {
        let d = self.distance;
        let ox = Self::pan_component(right.x, delta_x, d) + Self::pan_component(up.x, delta_y, d);
        let oy = Self::pan_component(right.y, delta_x, d) + Self::pan_component(up.y, delta_y, d);
        let oz = Self::pan_component(right.z, delta_x, d) + Self::pan_component(up.z, delta_y, d);
        self.target = Vec3 { x: self.target.x + ox, y: self.target.y + oy, z: self.target.z + oz };
    }

    fn pan_component(axis: i64, amount: i64, distance: i64) -> (r: i64)
        requires
            -ONE <= axis <= ONE,
            in_coord_range(amount),
            0 <= distance <= MAX_DISTANCE,
        ensures
            r == pan_offset(axis as int, amount as int, distance as int),
            -COORD_MAX <= r <= COORD_MAX,
    {
        let a: i128 = axis as i128;
        let b: i128 = amount as i128;
        let c: i128 = distance as i128;
        assert(-ONE * COORD_MAX <= a * b <= ONE * COORD_MAX) by (nonlinear_arith)
            requires
                -ONE <= a <= ONE,
                -COORD_MAX <= b <= COORD_MAX,
        ;
        let ab: i128 = a * b;
        assert(-ONE * COORD_MAX * MAX_DISTANCE <= ab * c <= ONE * COORD_MAX * MAX_DISTANCE)
            by (nonlinear_arith)
            requires
                -ONE * COORD_MAX <= ab <= ONE * COORD_MAX,
                0 <= c <= MAX_DISTANCE,
        ;
        let n: i128 = ab * c;
        let den: i128 = (ONE as i128) * (ONE as i128) * (PAN_SPEED_DIVISOR as i128);
        let q = floor_div(n, den);
        assert(-COORD_MAX <= q <= COORD_MAX) by (nonlinear_arith)
            requires
                q == n / den,
                den == ONE * ONE * PAN_SPEED_DIVISOR,
                -ONE * COORD_MAX * MAX_DISTANCE <= n <= ONE * COORD_MAX * MAX_DISTANCE,
                ONE == 1_000_000,
                MAX_DISTANCE == 1_000_000_000,
                PAN_SPEED_DIVISOR == 1000,
        ;
        q as i64
    }

    /// Update the aspect ratio (on viewport resize).
    pub fn set_aspect(&mut self, aspect: i64)
        ensures
            *final(self) == (OrbitalCamera { aspect, ..*old(self) }),
    {
        self.aspect = aspect;
    }

    /// Set the field of view from an angle in degrees (rounded down to a
    /// fixed-point radian value).
    pub fn set_fov_degrees(&mut self, fov_degrees: i64)
        requires
            i64::MIN <= fov_degrees * PI / (180 * ONE) <= i64::MAX,
        ensures
            *final(self) == (OrbitalCamera {
                fov: (fov_degrees * PI / (180 * ONE)) as i64,
                ..*old(self)
            }),
    {
        let deg: i128 = fov_degrees as i128;
        assert(-0x100_0000_0000_0000_0000_0000 <= deg * PI <= 0x100_0000_0000_0000_0000_0000) by (nonlinear_arith)
            requires
                -0x8000_0000_0000_0000 <= deg <= 0x8000_0000_0000_0000,
                PI == 3_141_593,
        ;
        let n: i128 = deg * PI as i128;
        self.fov = floor_div(n, 180 * ONE as i128) as i64;
    }

    /// Restore yaw, pitch, distance and target to their defaults (0, 0, 10
    /// and the origin); aspect, field of view and clip planes are kept.
    pub fn reset(&mut self)
        ensures
            *final(self) == (OrbitalCamera {
                yaw: 0,
                pitch: 0,
                distance: RESET_DISTANCE,
                target: origin(),
                ..*old(self)
            }),
    {
        self.yaw = 0;
        self.pitch = 0;
        self.distance = RESET_DISTANCE;
        self.target = Vec3::zero();
    }

    /// Aim at the center of the box `[min, max]` from the distance at which
    /// its diagonal, grown by the `padding` fraction, fits the vertical field
    /// of view whose half-angle has tangent `tan_half_fov`; the distance is
    /// clamped to `[MIN_DISTANCE, MAX_DISTANCE]`.
    pub fn frame_bounds(&mut self, min: Vec3, max: Vec3, padding: i64, tan_half_fov: i64)
        requires
            vec_in_range(min),
            vec_in_range(max),
            -ONE <= padding <= COORD_MAX,
            tan_half_fov > 0,
        ensures
            final(self).target.x == (min.x + max.x) / 2,
            final(self).target.y == (min.y + max.y) / 2,
            final(self).target.z == (min.z + max.z) / 2,
            final(self).distance == clamp(
                framing_distance(
                    floor_sqrt(size_sq(Bounds3D { min, max })),
                    padding as int,
                    tan_half_fov as int,
                ),
                MIN_DISTANCE as int,
                MAX_DISTANCE as int,
            ),
            MIN_DISTANCE <= final(self).distance <= MAX_DISTANCE,
            *final(self) == (OrbitalCamera {
                target: final(self).target,
                distance: final(self).distance,
                ..*old(self)
            }),
    {
        let b = Bounds3D::new(min, max);
        assert(box_in_range(b));
        self.target = b.center();
        let d = b.diagonal();
        let diag: i128 = d as i128;
        let grow: i128 = ONE as i128 + padding as i128;
        proof {
            size_sq_bound(b);
        }
        assert(diag <= 4 * COORD_MAX) by (nonlinear_arith)
            requires
                diag * diag <= size_sq(b),
                diag >= 0,
                size_sq(b) <= 12 * COORD_MAX * COORD_MAX,
        ;
        assert(0 <= diag * grow <= 4 * COORD_MAX * (COORD_MAX + ONE)) by (nonlinear_arith)
            requires
                0 <= diag <= 4 * COORD_MAX,
                0 <= grow <= COORD_MAX + ONE,
        ;
        let n: i128 = diag * grow;
        let q: i128 = n / (2 * tan_half_fov as i128);
        self.distance = clamp_i128(q, MIN_DISTANCE, MAX_DISTANCE);
        assert(framing_distance(d as int, padding as int, tan_half_fov as int) == q);
    }
}

impl Default for OrbitalCamera {
    fn default() -> (r: OrbitalCamera)
        ensures
            r == (OrbitalCamera {
                target: origin(),
                distance: RESET_DISTANCE,
                yaw: 0,
                pitch: 0,
                fov: DEFAULT_FOV,
                aspect: DEFAULT_ASPECT,
                near: DEFAULT_NEAR,
                far: DEFAULT_FAR,
            }),
    {
        OrbitalCamera::new(Vec3::zero(), RESET_DISTANCE, DEFAULT_ASPECT)
    }
}

} // verus!
