//! The part of an entity's appearance that the simulation decides.

use vstd::prelude::*;

verus! {

/// Which image an entity shows and which way it faces. Interpolated screen
/// positions and blink timers belong to the presentation layer and are driven
/// by the cues a turn returns.
#[derive(Clone, Copy, Debug, PartialEq, Eq, Structural)]
pub struct SpriteComponent {
    pub texture_index: usize,
    pub is_flipped: bool,
}

impl Default for SpriteComponent {
    fn default() -> (s: SpriteComponent)
        ensures
            s == (SpriteComponent { texture_index: 0, is_flipped: false }),
    {
        SpriteComponent { texture_index: 0, is_flipped: false }
    }
}

} // verus!
