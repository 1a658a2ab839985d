//! The one place where chance enters the game.

use vstd::prelude::*;

verus! {

/// Draws a coordinate with `rand::Rng::gen_range` on the generator that
/// `rand::thread_rng` hands out, over the half-open range `low..high`.
///
/// Not proved: that the value lies in the range asked for, `low` included
/// and `high` excluded, as rand documents it for a range of integers. Which
/// value comes is left open; two draws from one range may differ. An empty
/// range makes rand panic, so it is ruled out. The generator is seeded by
/// the operating system; where that fails, rand panics.
#[verifier::external_body]
pub(crate) fn draw_between(low: i128, high: i128) -> (drawn: i128)
    requires
        low < high,
    ensures
        low <= drawn < high,
{
    rand::Rng::gen_range(&mut rand::thread_rng(), low..high)
}

} // verus!
