//! What a turn asks of the presentation layer.

use vstd::prelude::*;

verus! {

/// Sound of a player step.
pub const SOUND_WALK: usize = 0;

/// Sound of the player digging.
pub const SOUND_DIG: usize = 1;

/// Sound of the player being hit.
pub const SOUND_HIT: usize = 2;

/// Sound of a teleport.
pub const SOUND_TELEPORT: usize = 3;

/// Sound of a finished level.
pub const SOUND_LEVEL_COMPLETED: usize = 4;

/// Sound of a skeleton telegraphing or climbing out.
pub const SOUND_SKELETON: usize = 5;

/// Sound of the exit refusing to open.
pub const SOUND_DOOR_LOCKED: usize = 6;

/// Sound of the player starting to fall.
pub const SOUND_FALL: usize = 7;

/// Sound of the player landing.
pub const SOUND_LAND: usize = 8;

/// Sound of a restarted level.
pub const SOUND_RESTART: usize = 9;

/// The particle bursts the simulation can ask for.
#[derive(Clone, Copy, Debug, PartialEq, Eq, Structural)]
pub enum Effect {
    /// Dirt thrown up under the player by a dig.
    Dust,
    /// Footstep of a step to the left.
    StepLeft,
    /// Footstep of a step to the right.
    StepRight,
    /// Blood at the player's centre.
    Blood,
    /// Dust under the player after a fall.
    Landing,
    /// A plant flying off; the number, 1 to 4, says which plant image.
    Foilage(usize),
}

/// One thing for the presentation layer to do. A turn returns its cues in the
/// order in which they arise.
#[derive(Clone, Copy, Debug, PartialEq, Eq, Structural)]
pub enum Cue {
    /// Play the sound effect with this index.
    Sound(usize),
    /// Emit this many particles of this effect at the player.
    Emit(Effect, i32),
    /// The player wrapped around vertically: show it at its cell at once, and
    /// blink.
    PlayerWarped,
    /// The player came out of the teleporter in this slot: show it there at
    /// once, and blink both.
    PlayerTeleported(usize),
    /// The plant that had this index before the turn was dug away.
    FoilageUprooted(usize),
    /// The block with this index keeps the exit locked: blink it.
    BlockLocked(usize),
    /// The skeleton with this index wrapped around vertically: show it at its
    /// cell at once, and blink.
    SkeletonWarped(usize),
}

} // verus!
