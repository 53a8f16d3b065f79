//! The camera: a logical pose integrated every frame, a separately
//! accumulated render rotation, and a zoomable projection scale.
//!
//! Each frame the pose's heading turns at a fixed angular rate and the
//! camera moves forward along its new heading at a fixed speed. Headings
//! are angles in millionths of a turn; positions are in thousandths of a
//! pixel. The caller supplies the heading's unit vector as a fixed-point
//! cosine/sine pair scaled by `TRIG_ONE`, since the model itself holds no
//! trigonometry.

use vstd::prelude::*;
use vstd::arithmetic::div_mod::{lemma_div_is_ordered, lemma_div_multiples_vanish};
use vstd::arithmetic::mul::{lemma_mul_inequality, lemma_mul_nonnegative};

use crate::angle::{rotate_angle, rotated_angle, Spin, TURN};
use crate::zoom::{SCALE_MAX, SCALE_MIN};

verus! {

/// Fixed-point unit for cosine/sine components: this value stands for 1.0.
pub const TRIG_ONE: i64 = 65_536;

/// Forward speed of the camera, in thousandths of a pixel per tick
/// (ten pixels per second).
pub const CAMERA_SPEED: i64 = 10;

/// Turning rate of the camera, in angle units per tick
/// (about half a radian per second).
pub const CAMERA_TURN_RATE: u64 = 80;

/// Largest elapsed time accepted for one frame, in ticks.
pub const DT_LIMIT: u64 = 0x100_0000_0000;

/// Largest camera coordinate magnitude the integrator accepts, in
/// thousandths of a pixel.
pub const POS_LIMIT: i64 = 0x4000_0000_0000;

/// Height of the camera above the sprite plane, in thousandths of a pixel.
pub const CAMERA_Z: i64 = 1_000_000;

/// A distance scaled by a fixed-point cosine or sine component `t`,
/// rounded toward zero.
pub open spec fn fwd_component(dist: int, t: int) -> int {
    if t >= 0 {
        (dist * t) / (TRIG_ONE as int)
    } else {
        -((dist * (-t)) / (TRIG_ONE as int))
    }
}

/// Multiplies a non-negative distance by a fixed-point factor in
/// `[-TRIG_ONE, TRIG_ONE]` and divides out the unit, rounding toward zero.
pub fn scale_dist(dist: i64, t: i64) -> (r: i64)
    requires
        0 <= dist <= 0x7fff_ffff_ffff,
        -TRIG_ONE <= t <= TRIG_ONE,
    ensures
        r as int == fwd_component(dist as int, t as int),
        -dist <= r <= dist,
{
    let neg = t < 0;
    let tm: i64 = if neg {
        -t
    } else {
        t
    };
    proof {
        lemma_mul_nonnegative(dist as int, tm as int);
        lemma_mul_inequality(tm as int, TRIG_ONE as int, dist as int);
        lemma_div_is_ordered(
            (dist as int) * (tm as int),
            (dist as int) * (TRIG_ONE as int),
            TRIG_ONE as int,
        );
        lemma_div_multiples_vanish(dist as int, TRIG_ONE as int);
    }
    let prod: u128 = (dist as u128) * (tm as u128);
    let q: u128 = prod / (TRIG_ONE as u128);
    let m: i64 = q as i64;
    if neg {
        -m
    } else {
        m
    }
}

/// The camera after one frame of motion: both angles advanced by the turn
/// rate times `dt`, the position moved `CAMERA_SPEED * dt` along the new
/// heading's unit vector `(fc, fs)`, height and scale untouched.
pub open spec fn advanced(c: Camera, dt: int, fc: int, fs: int) -> Camera {
    Camera {
        x: (c.x + fwd_component((CAMERA_SPEED as int) * dt, fc)) as i64,
        y: (c.y + fwd_component((CAMERA_SPEED as int) * dt, fs)) as i64,
        z: c.z,
        heading: rotated_angle(
            c.heading as int,
            Spin::Clockwise,
            CAMERA_TURN_RATE as int,
            dt,
        ) as u64,
        render_angle: rotated_angle(
            c.render_angle as int,
            Spin::Clockwise,
            CAMERA_TURN_RATE as int,
            dt,
        ) as u64,
        scale: c.scale,
    }
}

/// The camera entity: logical pose, render rotation, projection scale.
pub struct Camera {
    /// Position, in thousandths of a pixel.
    pub x: i64,
    pub y: i64,
    pub z: i64,
    /// Heading of the logical pose, in millionths of a turn.
    pub heading: u64,
    /// Accumulated rotation of the render transform, in millionths of a turn.
    pub render_angle: u64,
    /// Projection scale, in units of 1/40000; kept within
    /// `[SCALE_MIN, SCALE_MAX]`.
    pub scale: i64,
}

impl Camera {
    /// The camera's internal invariant.
    pub open spec fn wf(self) -> bool {
        &&& self.heading < TURN
        &&& self.render_angle < TURN
        &&& SCALE_MIN <= self.scale <= SCALE_MAX
    }

    /// The camera as spawned at startup: at the origin, high above the
    /// sprite plane, not yet turned, at full scale.
    pub fn spawn() -> (c: Camera)
        ensures
            c.wf(),
            c.x == 0 && c.y == 0 && c.z == CAMERA_Z,
            c.heading == 0 && c.render_angle == 0,
            c.scale == SCALE_MAX,
    {
        Camera { x: 0, y: 0, z: CAMERA_Z, heading: 0, render_angle: 0, scale: SCALE_MAX }
    }

    /// One frame of camera motion: the heading and the render rotation both
    /// advance by the turn rate times `dt`, and the camera moves
    /// `CAMERA_SPEED * dt` forward along the new heading, whose unit vector
    /// the caller passes as the fixed-point pair `(fwd_c, fwd_s)`.
    pub fn advance(&mut self, dt: u64, fwd_c: i64, fwd_s: i64)
        requires
            old(self).wf(),
            dt <= DT_LIMIT,
            -POS_LIMIT <= old(self).x <= POS_LIMIT,
            -POS_LIMIT <= old(self).y <= POS_LIMIT,
            -TRIG_ONE <= fwd_c <= TRIG_ONE,
            -TRIG_ONE <= fwd_s <= TRIG_ONE,
        ensures
            final(self).wf(),
            *final(self) == advanced(*old(self), dt as int, fwd_c as int, fwd_s as int),
    {
        self.heading = rotate_angle(self.heading, Spin::Clockwise, CAMERA_TURN_RATE, dt);
        self.render_angle = rotate_angle(self.render_angle, Spin::Clockwise, CAMERA_TURN_RATE, dt);
        let dist: i64 = CAMERA_SPEED * (dt as i64);
        let dx = scale_dist(dist, fwd_c);
        let dy = scale_dist(dist, fwd_s);
        self.x = self.x + dx;
        self.y = self.y + dy;
    }
}

} // verus!
