//! Random draws for the sprite attributes assigned at startup.

use vstd::prelude::*;

use crate::angle::Spin;

verus! {

/// Relies on rand::random: one machine integer drawn from the thread-local
/// generator. Nothing is promised of the value.
#[verifier::external_body]
fn random_u64() -> u64 {
    rand::random::<u64>()
}

/// A randomly drawn value below `limit`.
pub fn draw_below(limit: u64) -> (r: u64)
    requires
        limit > 0,
    ensures
        r < limit,
{
    random_u64() % limit
}

/// A randomly drawn spin direction, each with equal weight.
pub fn draw_spin() -> Spin {
    if random_u64() % 2 == 1 {
        Spin::CounterClockwise
    } else {
        Spin::Clockwise
    }
}

} // verus!
