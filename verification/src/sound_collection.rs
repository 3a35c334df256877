//! Which sound effect to play, if any.

use vstd::prelude::*;

verus! {

/// Number of sound effects.
pub const SOUND_COUNT: usize = 10;

/// Texture of the sound button while sound is on.
pub const TEXTURE_SOUND_ON: usize = 11;

/// Texture of the sound button while sound is off.
pub const TEXTURE_SOUND_OFF: usize = 12;

/// The sound switch. The sounds themselves belong to the audio device.
#[derive(Clone, Copy, Debug, PartialEq, Eq, Structural)]
pub struct SoundCollection {
    pub is_on: bool,
}

impl SoundCollection {
    /// The effect to start for a request to play effect `index`: that effect
    /// if sound is on and there is such an effect, else none.
    pub fn play(&self, index: usize) -> (source: Option<usize>)
        ensures
            source == if self.is_on && index < SOUND_COUNT {
                Some(index)
            } else {
                None
            },
    {
        if !self.is_on {
            return None;
        }
        if index < SOUND_COUNT {
            Some(index)
        } else {
            None
        }
    }

    /// The image the sound button shows.
    pub fn button_texture(&self) -> (texture_index: usize)
        ensures
            texture_index == if self.is_on {
                TEXTURE_SOUND_ON
            } else {
                TEXTURE_SOUND_OFF
            },
    {
        match self.is_on {
            true => TEXTURE_SOUND_ON,
            false => TEXTURE_SOUND_OFF,
        }
    }

    /// Switches sound on if it is off, and off if it is on.
    pub fn toggle(&mut self)
        ensures
            final(self).is_on == !old(self).is_on,
    {
        self.is_on = !self.is_on;
    }
}

} // verus!
