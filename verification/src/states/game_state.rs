//! The entity registry: one owned aggregate of everything on the grid.

use vstd::prelude::*;
use crate::entities::foilage::{Foilage, Grass};
use crate::entities::player::Player;
use crate::entities::skeleton::{Skeleton, SkeletonBlock};
use crate::entities::teleporter::{Exit, Teleporter};
use crate::sprite::SpriteComponent;
use crate::transform_compontent::{occupied, Cell, Position, TransformComponent};

verus! {

/// All entities of the running level. The registry only stores; the systems
/// in `entities` change it.
pub struct GameState {
    pub player: Player,
    pub grasses: Vec<Grass>,
    pub skeleton_blocks: Vec<SkeletonBlock>,
    pub skeletons: Vec<Skeleton>,
    pub foilages: Vec<Foilage>,
    /// The portal pair. The partner of slot `i` is slot `1 - i`.
    pub teleporters: [Option<Teleporter>; 2],
    pub exit: Exit,
    pub is_all_levels_completed: bool,
}

/// The mathematical content of a `GameState`.
#[verifier::ext_equal]
pub struct World {
    pub player: Player,
    pub grasses: Seq<Grass>,
    pub skeleton_blocks: Seq<SkeletonBlock>,
    pub skeletons: Seq<Skeleton>,
    pub foilages: Seq<Foilage>,
    pub teleporters: Seq<Option<Teleporter>>,
    pub exit: Exit,
    pub is_all_levels_completed: bool,
}

impl View for GameState {
    type V = World;

    open spec fn view(&self) -> World {
        World {
            player: self.player,
            grasses: self.grasses@,
            skeleton_blocks: self.skeleton_blocks@,
            skeletons: self.skeletons@,
            foilages: self.foilages@,
            teleporters: self.teleporters@,
            exit: self.exit,
            is_all_levels_completed: self.is_all_levels_completed,
        }
    }
}

impl World {
    /// The world before any map is loaded: a fresh player at the origin and
    /// nothing else.
    pub open spec fn empty() -> World {
        World {
            player: Player::fresh(Position { x: 0, y: 0 }),
            grasses: Seq::empty(),
            skeleton_blocks: Seq::empty(),
            skeletons: Seq::empty(),
            foilages: Seq::empty(),
            teleporters: seq![None, None],
            exit: Exit {
                transform: TransformComponent { position: Position { x: 0, y: 0 } },
                sprite: SpriteComponent { texture_index: 0, is_flipped: false },
            },
            is_all_levels_completed: false,
        }
    }

    /// Whether something a mover can stand on or bump into lies on cell `c`:
    /// a ground tile, a skeleton or a skeleton block.
    pub open spec fn solid_at(self, c: Cell) -> bool {
        occupied(self.grasses, c) || occupied(self.skeletons, c) || occupied(self.skeleton_blocks, c)
    }
}

impl GameState {
    /// An empty registry.
    pub fn new() -> (game_state: GameState)
        ensures
            game_state@ == World::empty(),
    {
        GameState {
            player: Player::default(),
            grasses: Vec::new(),
            skeleton_blocks: Vec::new(),
            skeletons: Vec::new(),
            foilages: Vec::new(),
            teleporters: [None, None],
            exit: Exit::default(),
            is_all_levels_completed: false,
        }
    }
}

} // verus!
