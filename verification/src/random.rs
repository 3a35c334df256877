//! Random rolls.

use vstd::prelude::*;

verus! {

/// Largest bound for which a roll is known to stay below its upper end.
pub const ROLL_LIMIT: i32 = 1_048_576;

/// Draws a whole number from `low` up to, but not including, `high`.
///
/// This calls `quad_rand::gen_range` at `i32`, which scales a 32-bit draw
/// into `[low, high)` in 64-bit floating point and cuts off the fraction.
/// For bounds from 0 to `ROLL_LIMIT` that arithmetic is exact, so the result
/// is at least `low` and below `high`. That much is taken on trust here; which
/// number comes out is up to the generator's state.
#[verifier::external_body]
pub(crate) fn gen_range(low: i32, high: i32) -> (roll: i32)
    requires
        0 <= low < high <= ROLL_LIMIT,
    ensures
        low <= roll < high,
{
    quad_rand::gen_range(low, high)
}

} // verus!
