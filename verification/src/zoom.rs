//! Mouse-wheel zoom: the camera projection scale, adjusted by wheel events
//! and clamped to a fixed range.
//!
//! The scale is a fixed-point integer in units of 1/40000, so `SCALE_MAX`
//! stands for a scale of 1.0 and `SCALE_MIN` for 0.1. A wheel event carries
//! the scroll amount in thousandths of a line; scrolling by one full line
//! changes the scale by 0.025, i.e. by exactly 1000 scale units.

use vstd::prelude::*;

verus! {

/// Smallest allowed projection scale: 0.1 in units of 1/40000.
pub const SCALE_MIN: i64 = 4_000;

/// Largest allowed projection scale: 1.0 in units of 1/40000.
pub const SCALE_MAX: i64 = 40_000;

/// A scale value forced into the allowed range.
pub open spec fn clamped(s: int) -> int {
    if s < SCALE_MIN as int {
        SCALE_MIN as int
    } else if s > SCALE_MAX as int {
        SCALE_MAX as int
    } else {
        s
    }
}

/// The projection scale after one wheel event: the scroll amount is
/// subtracted (scrolling up zooms in) and the result clamped.
pub fn zoom_step(scale: i64, wheel_y: i64) -> (r: i64)
    ensures
        r as int == clamped(scale - wheel_y),
        SCALE_MIN <= r <= SCALE_MAX,
{
    let d: i128 = scale as i128 - wheel_y as i128;
    if d < SCALE_MIN as i128 {
        SCALE_MIN
    } else if d > SCALE_MAX as i128 {
        SCALE_MAX
    } else {
        d as i64
    }
}

/// The projection scale after a whole sequence of wheel events, applied in
/// order.
pub open spec fn zoom_after(s: int, events: Seq<i64>) -> int
    decreases events.len(),
{
    if events.len() == 0 {
        s
    } else {
        zoom_after(clamped(s - events[0]), events.drop_first())
    }
}

/// The projection scale stays within its allowed range under any sequence
/// of wheel events, provided it starts there.
pub proof fn lemma_zoom_scale_in_range(s: int, events: Seq<i64>)
    requires
        SCALE_MIN <= s <= SCALE_MAX,
    ensures
        SCALE_MIN <= zoom_after(s, events) <= SCALE_MAX,
    decreases events.len(),
{
    if events.len() > 0 {
        lemma_zoom_scale_in_range(clamped(s - events[0]), events.drop_first());
    }
}

} // verus!
