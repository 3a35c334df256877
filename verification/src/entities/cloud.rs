//! Clouds: how many drift over a map, and what they look like.

use vstd::prelude::*;
use crate::constantes::{MAX_CLOUDS, MIN_CLOUDS};
use crate::random::gen_range;

verus! {

/// Texture of the first of the three cloud images; the others follow.
pub const TEXTURE_CLOUD_FIRST: usize = 18;

/// Texture of the last of the three cloud images.
pub const TEXTURE_CLOUD_LAST: usize = 20;

/// Rolls how many clouds a freshly loaded map gets.
pub fn spawn() -> (amount: i32)
    ensures
        MIN_CLOUDS <= amount <= MAX_CLOUDS,
{
    gen_range(MIN_CLOUDS, MAX_CLOUDS + 1)
}

/// Rolls the image of a new cloud.
pub fn roll_texture() -> (texture_index: usize)
    ensures
        TEXTURE_CLOUD_FIRST <= texture_index <= TEXTURE_CLOUD_LAST,
{
    gen_range(18, 20 + 1) as usize
}

} // verus!
