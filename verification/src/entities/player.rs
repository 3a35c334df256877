//! The player character.

use vstd::prelude::*;
use crate::constantes::{clamp_x, wrap_y, GAME_BOUNDS_X, GAME_BOUNDS_Y};
use crate::cue::{
    Cue, Effect, SOUND_DIG, SOUND_DOOR_LOCKED, SOUND_FALL, SOUND_LAND, SOUND_LEVEL_COMPLETED,
    SOUND_TELEPORT, SOUND_WALK,
};
use crate::entities::ai::{AiComponent, AiState};
use crate::entities::foilage::Grass;
use crate::entities::skeleton::{Skeleton, SkeletonBlock};
use crate::entities::teleporter::Teleporter;
use crate::map::{cleared, clear_map, MAP_COUNT};
use crate::sprite::SpriteComponent;
use crate::states::game_state::{GameState, World};
use crate::transform_compontent::{
    any_at, find_at, first_at, first_at_is_first, occupied, Cell, Position, TransformComponent,
};

verus! {

/// The move the player asked for. It is consumed by the next turn.
#[derive(Clone, Copy, Debug, PartialEq, Eq, Structural)]
pub enum PlayerInputIntent {
    /// No move was asked for.
    Idle,
    Up,
    Left,
    Right,
    Down,
}

impl PlayerInputIntent {
    /// The move a swipe asks for. A swipe that is too short asks for
    /// nothing. Otherwise the longer axis decides: a swipe that is wider than
    /// tall goes right or left, any other goes down or up.
    pub open spec fn swiped(
        is_long: bool,
        is_wider: bool,
        goes_right: bool,
        goes_down: bool,
    ) -> PlayerInputIntent {
        if !is_long {
            PlayerInputIntent::Idle
        } else if is_wider {
            if goes_right {
                PlayerInputIntent::Right
            } else {
                PlayerInputIntent::Left
            }
        } else if goes_down {
            PlayerInputIntent::Down
        } else {
            PlayerInputIntent::Up
        }
    }

    /// The move a swipe asks for. `is_long` says whether the swipe is longer
    /// than the shortest one that counts, `is_wider` whether it is wider than
    /// tall, `goes_right` and `goes_down` whether it runs rightwards and
    /// downwards.
    pub fn from_swipe(is_long: bool, is_wider: bool, goes_right: bool, goes_down: bool) -> (intent:
        PlayerInputIntent)
        ensures
            intent == PlayerInputIntent::swiped(is_long, is_wider, goes_right, goes_down),
    {
        let mut input_intent = PlayerInputIntent::Idle;
        if is_long {
            if is_wider {
                if goes_right {
                    input_intent = PlayerInputIntent::Right;
                } else {
                    input_intent = PlayerInputIntent::Left;
                }
            } else {
                if goes_down {
                    input_intent = PlayerInputIntent::Down;
                } else {
                    input_intent = PlayerInputIntent::Up;
                }
            }
        }
        input_intent
    }
}

impl Default for PlayerInputIntent {
    fn default() -> (intent: PlayerInputIntent)
        ensures
            intent == PlayerInputIntent::Idle,
    {
        PlayerInputIntent::Idle
    }
}

/// Texture of the player standing.
pub const TEXTURE_PLAYER: usize = 0;

/// Texture of the player digging.
pub const TEXTURE_PLAYER_DIG: usize = 8;

/// Texture of the player after a hit.
pub const TEXTURE_PLAYER_DEAD: usize = 9;

/// Texture of the player falling.
pub const TEXTURE_PLAYER_FALL: usize = 13;

/// The player character.
#[derive(Clone, Copy, Debug, PartialEq, Eq, Structural)]
pub struct Player {
    pub transform: TransformComponent,
    pub sprite: SpriteComponent,
    pub input_intent: PlayerInputIntent,
    pub is_alive: bool,
    /// Whether a skeleton is the floor under the player. Skeletons read this.
    pub is_on_skeleton: bool,
    /// Whether the player stood on something when last looked at.
    pub prev_grounded: bool,
}

impl Default for Player {
    fn default() -> (p: Player)
        ensures
            p == Player::fresh(Position { x: 0, y: 0 }),
    {
        Player {
            transform: TransformComponent { position: Position { x: 0, y: 0 } },
            sprite: SpriteComponent { texture_index: 0, is_flipped: false },
            input_intent: PlayerInputIntent::Idle,
            is_alive: true,
            is_on_skeleton: false,
            prev_grounded: true,
        }
    }
}

impl Player {
    /// A player who has just entered a level at `position`: alive, standing,
    /// with nothing asked for.
    pub open spec fn fresh(position: Position) -> Player {
        Player {
            transform: TransformComponent { position },
            sprite: SpriteComponent { texture_index: 0, is_flipped: false },
            input_intent: PlayerInputIntent::Idle,
            is_alive: true,
            is_on_skeleton: false,
            prev_grounded: true,
        }
    }
}

/// Particles thrown up by a landing.
pub const LAND_PARTICLES: i32 = 15;

/// What the per-frame step check hands back.
pub struct StepCheck {
    /// Whether a turn is to be resolved now. The caller then restarts the
    /// step timer.
    pub step: bool,
    /// The cues of a landing, if the player landed.
    pub cues: Vec<Cue>,
}

impl Player {
    /// Whether the player stands on a ground tile, a skeleton or a block.
    pub open spec fn stands_on(
        self,
        grasses: Seq<Grass>,
        skeletons: Seq<Skeleton>,
        skeleton_blocks: Seq<SkeletonBlock>,
    ) -> bool {
        let below = self.transform.position@.below();
        occupied(skeletons, below) || occupied(grasses, below) || occupied(skeleton_blocks, below)
    }

    /// Whether a turn is due: the player is alive, and either stands on
    /// something with a move pending, or is in the air with the step timer
    /// run out.
    pub open spec fn step_due(self, timer_elapsed: bool, grounded: bool) -> bool {
        self.is_alive && ((self.input_intent != PlayerInputIntent::Idle && grounded) || (timer_elapsed
            && !grounded))
    }

    /// Whether the player is seen to have landed: alive, no turn due, the
    /// step timer run out, on the ground, and in the air when last looked at.
    pub open spec fn landing(self, timer_elapsed: bool, grounded: bool) -> bool {
        self.is_alive && !self.step_due(timer_elapsed, grounded) && timer_elapsed && grounded
            && !self.prev_grounded
    }

    /// The player after a step check. A dead player is left alone. A living
    /// one learns whether a skeleton is underfoot, and stands up on landing.
    pub open spec fn step_checked(self, timer_elapsed: bool, on_skeleton: bool, grounded: bool) -> Player {
        if !self.is_alive {
            self
        } else if self.landing(timer_elapsed, grounded) {
            Player {
                is_on_skeleton: on_skeleton,
                prev_grounded: true,
                sprite: SpriteComponent {
                    texture_index: TEXTURE_PLAYER,
                    is_flipped: self.sprite.is_flipped,
                },
                ..self
            }
        } else {
            Player { is_on_skeleton: on_skeleton, ..self }
        }
    }

    /// The per-frame check whether a turn is to be resolved. `timer_elapsed`
    /// says whether the time since the last step, this frame included, is
    /// over the auto-step threshold.
    pub fn should_step(
        &mut self,
        timer_elapsed: bool,
        grasses: &Vec<Grass>,
        skeletons: &Vec<Skeleton>,
        skeleton_blocks: &Vec<SkeletonBlock>,
    ) -> (check: StepCheck)
        ensures
            *final(self) == old(self).step_checked(
                timer_elapsed,
                occupied(skeletons@, old(self).transform.position@.below()),
                old(self).stands_on(grasses@, skeletons@, skeleton_blocks@),
            ),
            check.step == old(self).step_due(
                timer_elapsed,
                old(self).stands_on(grasses@, skeletons@, skeleton_blocks@),
            ),
            check.cues@ == if old(self).landing(
                timer_elapsed,
                old(self).stands_on(grasses@, skeletons@, skeleton_blocks@),
            ) {
                seq![Cue::Sound(SOUND_LAND), Cue::Emit(Effect::Landing, LAND_PARTICLES)]
            } else {
                Seq::empty()
            },
    {
        let mut cues: Vec<Cue> = Vec::new();
        if !self.is_alive {
            return StepCheck { step: false, cues };
        }
        let pos = self.transform.position;
        let mut is_grounded = any_at(skeletons, &pos, 0, 1);
        self.is_on_skeleton = is_grounded;
        is_grounded = is_grounded || any_at(grasses, &pos, 0, 1);
        is_grounded = is_grounded || any_at(skeleton_blocks, &pos, 0, 1);

        if self.input_intent != PlayerInputIntent::Idle && is_grounded {
            return StepCheck { step: true, cues };
        }
        if timer_elapsed {
            if !is_grounded {
                return StepCheck { step: true, cues };
            }
            if !self.prev_grounded {
                self.sprite.texture_index = TEXTURE_PLAYER;
                self.prev_grounded = true;
                cues.push(Cue::Sound(SOUND_LAND));
                cues.push(Cue::Emit(Effect::Landing, LAND_PARTICLES));
            }
        }
        StepCheck { step: false, cues }
    }
}

/// Particles thrown up by a dig.
pub const DIG_PARTICLES: i32 = 20;

/// Particles of a step to the left.
pub const STEP_LEFT_PARTICLES: i32 = 9;

/// Particles of a step to the right.
pub const STEP_RIGHT_PARTICLES: i32 = 8;

/// What the player's part of a turn hands back.
pub struct PlayerTurn {
    /// The cues of this turn, in order.
    pub cues: Vec<Cue>,
    /// Whether the level ended and the next one has to be loaded now.
    pub load_map: bool,
}

/// Which plant image flies off when a plant with this texture is dug away.
pub open spec fn foilage_effect(texture_index: usize) -> usize {
    if texture_index == 15 {
        2
    } else if texture_index == 16 {
        3
    } else if texture_index == 17 {
        4
    } else {
        1
    }
}

/// The cues that flag the blocks that keep the exit locked: one for each of
/// the first `n` blocks whose skeleton is not out yet, in order.
pub open spec fn locked_cues(blocks: Seq<SkeletonBlock>, n: int) -> Seq<Cue>
    decreases n,
{
    if n <= 0 {
        Seq::empty()
    } else if !blocks[n - 1].buried.is_released {
        locked_cues(blocks, n - 1).push(Cue::BlockLocked((n - 1) as usize))
    } else {
        locked_cues(blocks, n - 1)
    }
}

/// Whether every skeleton is out of its block.
pub open spec fn all_released(blocks: Seq<SkeletonBlock>) -> bool {
    forall|i: int| 0 <= i < blocks.len() ==> (#[trigger] blocks[i]).buried.is_released
}

impl World {
    /// The cell the player is on.
    pub open spec fn player_cell(self) -> Cell {
        self.player.transform.position@
    }

    /// Whether the player stands on something solid.
    pub open spec fn player_grounded(self) -> bool {
        self.solid_at(self.player_cell().below())
    }

    /// The player, one row down, re-entering at the top when it leaves the
    /// world at the bottom. A fall uses up the turn: the pending move stays
    /// pending.
    pub open spec fn player_fallen(self) -> World {
        let p = self.player;
        World {
            player: Player {
                transform: TransformComponent {
                    position: Position {
                        x: p.transform.position.x,
                        y: wrap_y(p.transform.position.y + 1) as i32,
                    },
                },
                sprite: SpriteComponent {
                    texture_index: if p.prev_grounded {
                        TEXTURE_PLAYER_FALL
                    } else {
                        p.sprite.texture_index
                    },
                    is_flipped: p.sprite.is_flipped,
                },
                prev_grounded: false,
                ..p
            },
            ..self
        }
    }

    /// The cues of a turn spent falling.
    pub open spec fn fall_cues(self) -> Seq<Cue> {
        let lost_ground: Seq<Cue> = if self.player.prev_grounded {
            seq![Cue::Sound(SOUND_FALL)]
        } else {
            Seq::empty()
        };
        let warped: Seq<Cue> = if self.player.transform.position.y + 1 > GAME_BOUNDS_Y {
            seq![Cue::PlayerWarped]
        } else {
            Seq::empty()
        };
        lost_ground + warped
    }

    /// Whether a sideways step by `dx` columns is free: nothing solid is on
    /// the cell aimed for.
    pub open spec fn step_is_free(self, dx: int) -> bool {
        !self.solid_at(self.player_cell().offset(dx, 0))
    }

    /// The player after a sideways step by `dx` columns (-1 is left, 1 is
    /// right): turned that way, and moved if the step is free.
    pub open spec fn player_stepped(self, dx: int) -> World {
        let p = self.player;
        let x = if self.step_is_free(dx) {
            p.transform.position.x + dx
        } else {
            p.transform.position.x as int
        };
        World {
            player: Player {
                transform: TransformComponent {
                    position: Position { x: clamp_x(x) as i32, y: p.transform.position.y },
                },
                sprite: SpriteComponent { texture_index: TEXTURE_PLAYER, is_flipped: dx < 0 },
                ..p
            },
            ..self
        }
    }

    /// The cues of a sideways step.
    pub open spec fn step_cues(self, dx: int) -> Seq<Cue> {
        if !self.step_is_free(dx) {
            Seq::empty()
        } else if dx < 0 {
            seq![Cue::Sound(SOUND_WALK), Cue::Emit(Effect::StepLeft, STEP_LEFT_PARTICLES)]
        } else {
            seq![Cue::Sound(SOUND_WALK), Cue::Emit(Effect::StepRight, STEP_RIGHT_PARTICLES)]
        }
    }

    /// The teleporter slot the player stands on, the lower one first.
    pub open spec fn teleporter_underfoot(self) -> Option<int> {
        if self.teleporters[0] matches Some(t) && t.transform.position == self.player.transform.position {
            Some(0)
        } else if self.teleporters[1] matches Some(t) && t.transform.position
            == self.player.transform.position {
            Some(1)
        } else {
            None
        }
    }

    /// The slot a teleport leads to: the partner of the slot underfoot, if
    /// that partner exists.
    pub open spec fn teleport_target(self) -> Option<int> {
        match self.teleporter_underfoot() {
            Some(i) => if self.teleporters[1 - i].is_some() {
                Some(1 - i)
            } else {
                None
            },
            None => None,
        }
    }

    /// The world after the teleport part of an Up move: the player is at the
    /// partner portal, and the first skeleton standing there telegraphs at
    /// once. Without a teleport nothing changes.
    pub open spec fn player_teleported(self) -> World {
        match self.teleport_target() {
            Some(d) => {
                let dest = self.teleporters[d].unwrap().transform.position;
                World {
                    player: Player { transform: TransformComponent { position: dest }, ..self.player },
                    skeletons: match first_at(self.skeletons, dest@) {
                        Some(k) => self.skeletons.update(
                            k,
                            Skeleton {
                                ai: AiComponent {
                                    state: AiState::Attack,
                                    turn_taken: self.skeletons[k].ai.turn_taken,
                                },
                                ..self.skeletons[k]
                            },
                        ),
                        None => self.skeletons,
                    },
                    ..self
                }
            },
            None => self,
        }
    }

    /// The cues of the teleport part of an Up move.
    pub open spec fn teleport_cues(self) -> Seq<Cue> {
        match self.teleport_target() {
            Some(d) => seq![Cue::Sound(SOUND_TELEPORT), Cue::PlayerTeleported(d as usize)],
            None => Seq::empty(),
        }
    }

    /// Whether the player stands on the exit.
    pub open spec fn player_on_exit(self) -> bool {
        self.exit.transform.position == self.player.transform.position
    }

    /// The cues of the exit part of an Up move.
    pub open spec fn exit_cues(self) -> Seq<Cue> {
        if !self.player_on_exit() {
            Seq::empty()
        } else if all_released(self.skeleton_blocks) {
            seq![Cue::Sound(SOUND_LEVEL_COMPLETED)]
        } else {
            seq![Cue::Sound(SOUND_DOOR_LOCKED)] + locked_cues(
                self.skeleton_blocks,
                self.skeleton_blocks.len() as int,
            )
        }
    }

    /// The world after a Down move: the first block under the player is dug
    /// open, the first plant on the cell under the player is gone.
    pub open spec fn player_dug(self) -> World {
        let below = self.player_cell().below();
        World {
            player: Player {
                sprite: SpriteComponent {
                    texture_index: TEXTURE_PLAYER_DIG,
                    is_flipped: self.player.sprite.is_flipped,
                },
                ..self.player
            },
            skeleton_blocks: match first_at(self.skeleton_blocks, below) {
                Some(k) => self.skeleton_blocks.update(k, self.skeleton_blocks[k].dug()),
                None => self.skeleton_blocks,
            },
            foilages: match first_at(self.foilages, below) {
                Some(k) => self.foilages.remove(k),
                None => self.foilages,
            },
            ..self
        }
    }

    /// The cues of a Down move.
    pub open spec fn dig_cues(self) -> Seq<Cue> {
        let dust = seq![Cue::Emit(Effect::Dust, DIG_PARTICLES), Cue::Sound(SOUND_DIG)];
        match first_at(self.foilages, self.player_cell().below()) {
            Some(k) => dust.push(Cue::FoilageUprooted(k as usize)).push(
                Cue::Emit(Effect::Foilage(foilage_effect(self.foilages[k].sprite.texture_index)), 1),
            ),
            None => dust,
        }
    }

    /// The world with the player shown standing on the ground.
    pub open spec fn player_standing(self) -> World {
        World {
            player: Player {
                sprite: SpriteComponent {
                    texture_index: TEXTURE_PLAYER,
                    is_flipped: self.player.sprite.is_flipped,
                },
                prev_grounded: true,
                ..self.player
            },
            ..self
        }
    }

    /// The world after the pending move of a player who stands on something,
    /// before the column is clamped and the move is used up.
    pub open spec fn player_acted(self) -> World {
        let standing = self.player_standing();
        match self.player.input_intent {
            PlayerInputIntent::Left => standing.player_stepped(-1),
            PlayerInputIntent::Right => standing.player_stepped(1),
            PlayerInputIntent::Up => standing.player_teleported(),
            PlayerInputIntent::Down => standing.player_dug(),
            PlayerInputIntent::Idle => standing,
        }
    }

    /// The world after the player's part of a turn, where the level goes on.
    /// In the air the player falls. On the ground the pending move is
    /// carried out, the column is clamped and the move is used up.
    pub open spec fn player_moved(self) -> World {
        if !self.player_grounded() {
            self.player_fallen()
        } else {
            let acted = self.player_acted();
            World {
                player: Player {
                    transform: TransformComponent {
                        position: Position {
                            x: clamp_x(acted.player.transform.position.x as int) as i32,
                            y: acted.player.transform.position.y,
                        },
                    },
                    input_intent: PlayerInputIntent::Idle,
                    ..acted.player
                },
                ..acted
            }
        }
    }

    /// The cues of the player's part of a turn.
    pub open spec fn player_cues(self) -> Seq<Cue> {
        if !self.player_grounded() {
            self.fall_cues()
        } else {
            match self.player.input_intent {
                PlayerInputIntent::Left => self.step_cues(-1),
                PlayerInputIntent::Right => self.step_cues(1),
                PlayerInputIntent::Up => self.teleport_cues() + self.player_teleported().exit_cues(),
                PlayerInputIntent::Down => self.dig_cues(),
                PlayerInputIntent::Idle => Seq::empty(),
            }
        }
    }

    /// Whether this turn ends the level: the player stands on something, goes
    /// Up, is on the exit after a possible teleport, and every skeleton is
    /// out of its block.
    pub open spec fn player_exits(self) -> bool {
        &&& self.player_grounded()
        &&& self.player.input_intent == PlayerInputIntent::Up
        &&& self.player_teleported().player_on_exit()
        &&& all_released(self.skeleton_blocks)
    }

    /// The world after the player's part of a turn played on level
    /// `current_map`. When the level ends the map is cleared, and the game is
    /// over once no level is left.
    pub open spec fn after_player(self, current_map: int) -> World {
        if self.player_exits() {
            let gone = cleared(self.player_moved());
            World {
                is_all_levels_completed: gone.is_all_levels_completed || current_map + 1 >= MAP_COUNT,
                ..gone
            }
        } else {
            self.player_moved()
        }
    }
}

/// Clamps a column to the world.
fn clamp_column(x: i64) -> (c: i32)
    ensures
        c == clamp_x(x as int),
{
    if x < 0 {
        0
    } else if x > GAME_BOUNDS_X as i64 {
        GAME_BOUNDS_X
    } else {
        x as i32
    }
}

/// Whether every skeleton is out of its block.
fn every_block_released(blocks: &Vec<SkeletonBlock>) -> (all: bool)
    ensures
        all == all_released(blocks@),
{
    let mut i: usize = 0;
    while i < blocks.len()
        invariant
            i <= blocks.len(),
            forall|j: int| 0 <= j < i ==> (#[trigger] blocks@[j]).buried.is_released,
        decreases blocks.len() - i,
    {
        if !blocks[i].buried.is_released {
            return false;
        }
        i += 1;
    }
    true
}

/// Appends the cues that flag the blocks whose skeleton is not out yet.
fn flag_locked_blocks(blocks: &Vec<SkeletonBlock>, cues: &mut Vec<Cue>)
    ensures
        final(cues)@ == old(cues)@ + locked_cues(blocks@, blocks@.len() as int),
{
    let mut i: usize = 0;
    while i < blocks.len()
        invariant
            i <= blocks.len(),
            cues@ == old(cues)@ + locked_cues(blocks@, i as int),
        decreases blocks.len() - i,
    {
        if !blocks[i].buried.is_released {
            cues.push(Cue::BlockLocked(i));
        }
        i += 1;
    }
}

/// Whether `slot` holds a teleporter that lies on `pos`.
fn stands_on(slot: &Option<Teleporter>, pos: &Position) -> (on: bool)
    ensures
        on == (*slot matches Some(t) && t.transform.position == *pos),
{
    match slot {
        Some(t) => t.transform.position == *pos,
        None => false,
    }
}

/// Which plant image flies off when a plant with this texture is dug away.
fn foilage_effect_of(texture_index: usize) -> (n: usize)
    ensures
        n == foilage_effect(texture_index),
{
    match texture_index {
        15 => 2,
        16 => 3,
        17 => 4,
        _ => 1,
    }
}

/// Whether something solid lies `dx` columns right of and `dy` rows below
/// `origin`.
fn solid_near(game_state: &GameState, origin: &Position, dx: i32, dy: i32) -> (hit: bool)
    ensures
        hit == game_state@.solid_at(origin@.offset(dx as int, dy as int)),
{
    any_at(&game_state.grasses, origin, dx, dy) || any_at(&game_state.skeletons, origin, dx, dy)
        || any_at(&game_state.skeleton_blocks, origin, dx, dy)
}

/// A turn spent falling.
fn fall(game_state: &mut GameState, cues: &mut Vec<Cue>)
    ensures
        final(game_state)@ == old(game_state)@.player_fallen(),
        final(cues)@ == old(cues)@ + old(game_state)@.fall_cues(),
{
    if game_state.player.prev_grounded {
        cues.push(Cue::Sound(SOUND_FALL));
        game_state.player.sprite.texture_index = TEXTURE_PLAYER_FALL;
    }
    game_state.player.prev_grounded = false;
    if game_state.player.transform.position.y >= GAME_BOUNDS_Y {
        game_state.player.transform.position.y = 0;
        cues.push(Cue::PlayerWarped);
    } else {
        game_state.player.transform.position.y = game_state.player.transform.position.y + 1;
    }
}

/// A sideways step by `dx` columns.
fn step(game_state: &mut GameState, dx: i32, cues: &mut Vec<Cue>)
    requires
        dx == -1 || dx == 1,
    ensures
        final(game_state)@ == old(game_state)@.player_stepped(dx as int),
        final(cues)@ == old(cues)@ + old(game_state)@.step_cues(dx as int),
{
    let pos = game_state.player.transform.position;
    game_state.player.sprite.texture_index = TEXTURE_PLAYER;
    game_state.player.sprite.is_flipped = dx < 0;
    if !solid_near(game_state, &pos, dx, 0) {
        game_state.player.transform.position.x = clamp_column(pos.x as i64 + dx as i64);
        cues.push(Cue::Sound(SOUND_WALK));
        if dx < 0 {
            cues.push(Cue::Emit(Effect::StepLeft, STEP_LEFT_PARTICLES));
        } else {
            cues.push(Cue::Emit(Effect::StepRight, STEP_RIGHT_PARTICLES));
        }
    } else {
        game_state.player.transform.position.x = clamp_column(pos.x as i64);
    }
}

/// The teleport part of an Up move.
fn teleport(game_state: &mut GameState, cues: &mut Vec<Cue>)
    ensures
        final(game_state)@ == old(game_state)@.player_teleported(),
        final(cues)@ == old(cues)@ + old(game_state)@.teleport_cues(),
{
    let pos = game_state.player.transform.position;
    let underfoot: Option<usize> = if stands_on(&game_state.teleporters[0], &pos) {
        Some(0)
    } else if stands_on(&game_state.teleporters[1], &pos) {
        Some(1)
    } else {
        None
    };
    if let Some(index) = underfoot {
        let other: usize = 1 - index;
        if let Some(partner) = game_state.teleporters[other] {
            let dest = partner.transform.position;
            game_state.player.transform.position = dest;
            cues.push(Cue::Sound(SOUND_TELEPORT));
            cues.push(Cue::PlayerTeleported(other));
            if let Some(k) = find_at(&game_state.skeletons, &dest, 0, 0) {
                let mut skeleton = game_state.skeletons[k];
                skeleton.ai.state = AiState::Attack;
                game_state.skeletons.set(k, skeleton);
            }
        }
    }
}

/// The exit part of an Up move. Returns whether the level ends.
fn try_exit(game_state: &GameState, cues: &mut Vec<Cue>) -> (leaves: bool)
    ensures
        leaves == (game_state@.player_on_exit() && all_released(game_state@.skeleton_blocks)),
        final(cues)@ == old(cues)@ + game_state@.exit_cues(),
{
    let is_on_exit = game_state.exit.transform.position == game_state.player.transform.position;
    let all_skeletons_freed = every_block_released(&game_state.skeleton_blocks);
    if !is_on_exit {
        return false;
    }
    if all_skeletons_freed {
        cues.push(Cue::Sound(SOUND_LEVEL_COMPLETED));
    } else {
        cues.push(Cue::Sound(SOUND_DOOR_LOCKED));
        flag_locked_blocks(&game_state.skeleton_blocks, cues);
    }
    all_skeletons_freed
}

/// A Down move.
fn dig_below(game_state: &mut GameState, cues: &mut Vec<Cue>)
    ensures
        final(game_state)@ == old(game_state)@.player_dug(),
        final(cues)@ == old(cues)@ + old(game_state)@.dig_cues(),
{
    let pos = game_state.player.transform.position;
    if let Some(k) = find_at(&game_state.skeleton_blocks, &pos, 0, 1) {
        let mut block = game_state.skeleton_blocks[k];
        block.dig();
        game_state.skeleton_blocks.set(k, block);
    }
    cues.push(Cue::Emit(Effect::Dust, DIG_PARTICLES));
    cues.push(Cue::Sound(SOUND_DIG));
    game_state.player.sprite.texture_index = TEXTURE_PLAYER_DIG;
    if let Some(k) = find_at(&game_state.foilages, &pos, 0, 1) {
        let foilage = game_state.foilages.remove(k);
        cues.push(Cue::FoilageUprooted(k));
        cues.push(Cue::Emit(Effect::Foilage(foilage_effect_of(foilage.sprite.texture_index)), 1));
    }
}

/// The player's part of a turn on level `current_map`: fall when in the air,
/// else carry out the pending move. When the move ends the level, the map is
/// cleared and `current_map` advances; `load_map` then says whether a next
/// level is to be loaded.
pub fn system(game_state: &mut GameState, current_map: &mut usize) -> (turn: PlayerTurn)
    requires
        *old(current_map) < usize::MAX,
    ensures
        final(game_state)@ == old(game_state)@.after_player(*old(current_map) as int),
        turn.cues@ == old(game_state)@.player_cues(),
        *final(current_map) == if old(game_state)@.player_exits() {
            *old(current_map) + 1
        } else {
            *old(current_map) as int
        },
        turn.load_map == (old(game_state)@.player_exits() && *old(current_map) + 1 < MAP_COUNT),
{
    let mut cues: Vec<Cue> = Vec::new();
    let pos = game_state.player.transform.position;
    if !solid_near(game_state, &pos, 0, 1) {
        fall(game_state, &mut cues);
        return PlayerTurn { cues, load_map: false };
    }
    game_state.player.sprite.texture_index = TEXTURE_PLAYER;
    game_state.player.prev_grounded = true;

    let mut should_exit = false;
    match game_state.player.input_intent {
        PlayerInputIntent::Left => {
            step(game_state, -1, &mut cues);
        },
        PlayerInputIntent::Right => {
            step(game_state, 1, &mut cues);
        },
        PlayerInputIntent::Up => {
            teleport(game_state, &mut cues);
            should_exit = try_exit(game_state, &mut cues);
        },
        PlayerInputIntent::Down => {
            dig_below(game_state, &mut cues);
        },
        PlayerInputIntent::Idle => {},
    }
    game_state.player.transform.position.x = clamp_column(
        game_state.player.transform.position.x as i64,
    );
    game_state.player.input_intent = PlayerInputIntent::Idle;

    let mut load_map = false;
    if should_exit {
        clear_map(game_state);
        *current_map += 1;
        if *current_map >= MAP_COUNT {
            game_state.is_all_levels_completed = true;
        } else {
            load_map = true;
        }
    }
    PlayerTurn { cues, load_map }
}

/// After the player's part of a turn, a player who stood on something is
/// inside the world's columns, and a player who fell out of the world at the
/// bottom is on row 0.
pub proof fn player_kept_in_bounds(w: World)
    ensures
        w.player_grounded() ==> 0 <= w.player_moved().player.transform.position.x <= GAME_BOUNDS_X,
        !w.player_grounded() && w.player.transform.position.y + 1 > GAME_BOUNDS_Y
            ==> w.player_moved().player.transform.position.y == 0,
        !w.player_grounded() && w.player.transform.position.y + 1 <= GAME_BOUNDS_Y
            ==> w.player_moved().player.transform.position.y == w.player.transform.position.y + 1,
{
}

/// The world with `intent` as the player's pending move.
pub open spec fn with_intent(w: World, intent: PlayerInputIntent) -> World {
    World { player: Player { input_intent: intent, ..w.player }, ..w }
}

/// A teleport and the teleport straight back return the player to where it
/// started. This holds where both portals exist and lie inside the world's
/// columns, the player stands on one of them, there is ground under both, and
/// the first jump does not end the level.
pub proof fn teleport_round_trip(w: World)
    requires
        w.teleporters.len() == 2,
        w.teleporters[0] is Some,
        w.teleporters[1] is Some,
        0 <= w.teleporters[0]->0.transform.position.x <= GAME_BOUNDS_X,
        0 <= w.teleporters[1]->0.transform.position.x <= GAME_BOUNDS_X,
        w.player.transform.position == w.teleporters[0]->0.transform.position
            || w.player.transform.position == w.teleporters[1]->0.transform.position,
        w.solid_at(w.teleporters[0]->0.transform.position@.below()),
        w.solid_at(w.teleporters[1]->0.transform.position@.below()),
        w.player.input_intent == PlayerInputIntent::Up,
        !w.player_exits(),
    ensures
        ({
            let there = w.player_moved();
            let back = with_intent(there, PlayerInputIntent::Up).player_moved();
            &&& there.player.transform.position == w.teleporters[w.teleport_target()->0]->0.transform.position
            &&& back.player.transform.position == w.player.transform.position
        }),
{
    let d = w.teleport_target()->0;
    let there = w.player_moved();
    let again = with_intent(there, PlayerInputIntent::Up);
    // Skeletons stay on their cells; one of them may have started to telegraph.
    assert forall|c: Cell| occupied(w.skeletons, c) implies occupied(again.skeletons, c) by {
        first_at_is_first(w.skeletons, w.teleporters[d]->0.transform.position@);
        let i = choose|i: int|
            0 <= i < w.skeletons.len() && (#[trigger] w.skeletons[i]).transform.position@ == c;
        assert(again.skeletons[i].transform.position@ == c);
    }
}

} // verus!
