//! Enemy behaviour state.

use vstd::prelude::*;

verus! {

/// What a skeleton is doing. `Attack` is a one-turn telegraph: it is entered
/// when the skeleton is next to the player and resolved on the following turn.
#[derive(Clone, Copy, Debug, PartialEq, Eq, Structural)]
pub enum AiState {
    Walk,
    Attack,
}

#[derive(Clone, Copy, Debug, PartialEq, Eq, Structural)]
pub struct AiComponent {
    pub state: AiState,
    /// Set while a resolution pass has already handled this skeleton; cleared
    /// again at the end of the pass.
    pub turn_taken: bool,
}

impl Default for AiComponent {
    /// A fresh skeleton telegraphs first.
    fn default() -> (ai: AiComponent)
        ensures
            ai == (AiComponent { state: AiState::Attack, turn_taken: false }),
    {
        AiComponent { state: AiState::Attack, turn_taken: false }
    }
}

} // verus!
