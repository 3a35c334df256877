//! Everything that lives on the grid.

pub mod ai;
pub mod cloud;
pub mod foilage;
pub mod player;
pub mod skeleton;
pub mod teleporter;
