//! A tile-grid puzzle game, reduced to what it decides.
//!
//! A player and skeletons move on a grid of cells. Each turn the player
//! falls or carries out one move, skeletons that telegraphed an attack
//! strike, the others walk towards the player, and dug-up blocks let their
//! skeletons out. The crate resolves such turns on a [`GameState`], reads
//! levels from text grids, and keeps the slot pools of the particle
//! systems. Time, sound and drawing are left to the caller, who is told what
//! to show through [`Cue`]s.
//!
//! [`GameState`]: states::game_state::GameState
//! [`Cue`]: cue::Cue

pub mod constantes;
pub mod cue;
pub mod entities;
pub mod map;
pub mod particle_system;
pub mod random;
pub mod sound_collection;
pub mod sprite;
pub mod states;
pub mod transform_compontent;
