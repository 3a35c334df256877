//! The aggregate state of a running game.

pub mod game_state;
pub mod main_state;
