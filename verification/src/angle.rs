//! Rotation angles and their per-frame update.
//!
//! An angle is a fixed-point integer in millionths of a full turn, always
//! held in `[0, TURN)`. A rotation rate is measured in angle units per
//! millisecond tick, so one update advances an angle by exactly
//! `rate * dt`, taken modulo a full turn, in the spinning direction.

use vstd::prelude::*;
use vstd::arithmetic::div_mod::{
    lemma_add_mod_noop_right,
    lemma_mod_add_multiples_vanish,
    lemma_mod_division_less_than_divisor,
    lemma_sub_mod_noop_right,
};

verus! {

/// Angle units in a full turn: one unit is a millionth of a turn.
pub const TURN: u64 = 1_000_000;

/// The sense in which a sprite spins.
#[derive(Clone, Copy, PartialEq, Eq, Structural, Debug)]
pub enum Spin {
    Clockwise,
    CounterClockwise,
}

/// The sign a spin direction contributes to the angle update.
pub open spec fn spin_sign(d: Spin) -> int {
    match d {
        Spin::Clockwise => 1,
        Spin::CounterClockwise => -1,
    }
}

/// The angle reached from `angle` after spinning for `dt` ticks at `rate`
/// angle units per tick in direction `d`, reduced modulo a full turn.
pub open spec fn rotated_angle(angle: int, d: Spin, rate: int, dt: int) -> int {
    (angle + spin_sign(d) * (rate * dt)) % (TURN as int)
}

/// One rotation update: advances `angle` by `rate * dt` angle units in
/// direction `d`, wrapping around the full turn.
pub fn rotate_angle(angle: u64, d: Spin, rate: u64, dt: u64) -> (r: u64)
    requires
        angle < TURN,
    ensures
        r < TURN,
        r as int == rotated_angle(angle as int, d, rate as int, dt as int),
{
    proof {
        assert((rate as int) * (dt as int) <= (u64::MAX as int) * (u64::MAX as int))
            by (nonlinear_arith)
            requires
                0 <= rate as int <= u64::MAX as int,
                0 <= dt as int <= u64::MAX as int,
        ;
        lemma_mod_division_less_than_divisor((rate as int) * (dt as int), TURN as int);
    }
    let turn_wide: u128 = TURN as u128;
    let step_wide: u128 = ((rate as u128) * (dt as u128)) % turn_wide;
    let step: u64 = step_wide as u64;
    assert(step as int == ((rate as int) * (dt as int)) % (TURN as int));
    match d {
        Spin::Clockwise => {
            let r = (angle + step) % TURN;
            proof {
                lemma_add_mod_noop_right(angle as int, (rate as int) * (dt as int), TURN as int);
                lemma_mod_division_less_than_divisor((angle + step) as int, TURN as int);
                let ghost p = (rate as int) * (dt as int);
                let ghost sg = spin_sign(d);
                assert(sg * p == p) by (nonlinear_arith)
                    requires
                        sg == 1,
                ;
            }
            r
        },
        Spin::CounterClockwise => {
            let r = (angle + (TURN - step)) % TURN;
            proof {
                lemma_mod_add_multiples_vanish(angle - step, TURN as int);
                lemma_sub_mod_noop_right(angle as int, (rate as int) * (dt as int), TURN as int);
                lemma_mod_division_less_than_divisor((angle + (TURN - step)) as int, TURN as int);
                let ghost p = (rate as int) * (dt as int);
                let ghost sg = spin_sign(d);
                assert(sg * p == -p) by (nonlinear_arith)
                    requires
                        sg == -1,
                ;
            }
            r
        },
    }
}

} // verus!
