//! A sprite entity: a grid tile with randomized attributes, spinning in
//! place at its own rate and direction.

use vstd::prelude::*;

use crate::angle::{rotated_angle, Spin, TURN};

verus! {

/// Sprite depth values lie below this bound: within one pixel of the
/// sprite plane, in thousandths of a pixel.
pub const SPRITE_Z_RANGE: u64 = 1_000;

/// One radian, in millionths of a turn: the bound on a sprite's starting
/// angle.
pub const RADIAN_TURNS: u64 = 159_155;

/// Sprite scale factors lie below this bound: up to twice the natural
/// size, in thousandths.
pub const SPRITE_SCALE_RANGE: u64 = 2_000;

/// Sprite rotation rates lie below this bound, in angle units per tick:
/// about five radians per second.
pub const RATE_LIMIT: u64 = 796;

/// A sprite entity, spawned once and then only rotated.
#[derive(Clone, Copy, PartialEq, Eq, Structural, Debug)]
pub struct Sprite {
    /// Position, in thousandths of a pixel.
    pub x: i64,
    pub y: i64,
    /// Depth, in thousandths of a pixel.
    pub z: u64,
    /// Current rotation, in millionths of a turn.
    pub angle: u64,
    /// Uniform scale factor, in thousandths.
    pub scale: u64,
    /// Sense of the spin.
    pub dir: Spin,
    /// Rotation rate, in angle units per tick.
    pub rate: u64,
}

impl Sprite {
    /// The sprite's internal invariant.
    pub open spec fn wf(self) -> bool {
        self.angle < TURN
    }
}

/// The sprite after one frame: its angle advanced by its own rate and
/// direction for `dt` ticks, every other attribute untouched.
pub open spec fn sprite_rotated(s: Sprite, dt: int) -> Sprite {
    Sprite { angle: rotated_angle(s.angle as int, s.dir, s.rate as int, dt) as u64, ..s }
}

} // verus!
