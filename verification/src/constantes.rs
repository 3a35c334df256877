//! World bounds and the clamping rules shared by every mover.

use vstd::prelude::*;

verus! {

/// Largest row index of the world; a mover that steps past it re-enters at row 0.
pub const GAME_BOUNDS_Y: i32 = 7;

/// Largest column index of the world; movers are kept inside `[0, GAME_BOUNDS_X]`.
pub const GAME_BOUNDS_X: i32 = 9;

/// Most clouds a freshly loaded map may carry.
pub const MAX_CLOUDS: i32 = 8;

/// Fewest clouds a freshly loaded map may carry.
pub const MIN_CLOUDS: i32 = 2;

/// The column a mover ends up in when it aims for column `x`: the world has
/// hard walls on the left and on the right.
pub open spec fn clamp_x(x: int) -> int {
    if x < 0 {
        0
    } else if x > GAME_BOUNDS_X {
        GAME_BOUNDS_X as int
    } else {
        x
    }
}

/// The row a mover ends up in when it aims for row `y`: the world loops
/// vertically, so anything past the last row re-enters at the top. Rows above
/// the top are left alone.
pub open spec fn wrap_y(y: int) -> int {
    if y > GAME_BOUNDS_Y {
        0
    } else {
        y
    }
}

/// Clamping always lands inside the world's columns, and it leaves columns
/// that are already inside untouched.
pub proof fn clamp_x_in_bounds(x: int)
    ensures
        0 <= clamp_x(x) <= GAME_BOUNDS_X,
        0 <= x <= GAME_BOUNDS_X ==> clamp_x(x) == x,
        clamp_x(clamp_x(x)) == clamp_x(x),
{
}

/// A row past the last one resets to exactly 0 and is never pinned to the last
/// row; every other row is kept.
pub proof fn wrap_y_resets(y: int)
    ensures
        y > GAME_BOUNDS_Y ==> wrap_y(y) == 0,
        y <= GAME_BOUNDS_Y ==> wrap_y(y) == y,
        wrap_y(y) <= GAME_BOUNDS_Y,
        wrap_y(wrap_y(y)) == wrap_y(y),
{
}

} // verus!
