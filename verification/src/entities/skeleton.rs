//! Skeletons and the blocks they are buried in.

use vstd::prelude::*;
use crate::constantes::{clamp_x, wrap_y, GAME_BOUNDS_X, GAME_BOUNDS_Y};
use crate::cue::{Cue, Effect, SOUND_HIT, SOUND_SKELETON};
use crate::entities::ai::{AiComponent, AiState};
use crate::entities::player::{Player, TEXTURE_PLAYER_DEAD};
use crate::sprite::SpriteComponent;
use crate::states::game_state::{GameState, World};
use crate::transform_compontent::{any_at, occupied, Cell, Located, Position, TransformComponent};

verus! {

/// Texture of a block that still hides its skeleton.
pub const TEXTURE_BURIED: usize = 3;

/// Texture of a block that has been dug open.
pub const TEXTURE_UNBURIED: usize = 2;

/// Texture of a skeleton that walks.
pub const TEXTURE_SKELETON_NEUTRAL: usize = 4;

/// Texture of a skeleton that telegraphs an attack.
pub const TEXTURE_SKELETON_ATTACK: usize = 7;

/// An enemy on the grid.
#[derive(Clone, Copy, Debug, PartialEq, Eq, Structural)]
pub struct Skeleton {
    pub transform: TransformComponent,
    pub sprite: SpriteComponent,
    pub ai: AiComponent,
}

impl Default for Skeleton {
    fn default() -> (s: Skeleton)
        ensures
            s.transform.position == (Position { x: 0, y: 0 }),
            s.sprite == (SpriteComponent { texture_index: 0, is_flipped: false }),
            s.ai == (AiComponent { state: AiState::Attack, turn_taken: false }),
    {
        Skeleton {
            transform: TransformComponent { position: Position { x: 0, y: 0 } },
            sprite: SpriteComponent { texture_index: 0, is_flipped: false },
            ai: AiComponent { state: AiState::Attack, turn_taken: false },
        }
    }
}

impl Located for Skeleton {
    open spec fn cell(&self) -> Cell {
        self.transform.position@
    }

    fn position(&self) -> (p: Position) {
        self.transform.position
    }
}

/// A tile with a skeleton buried in it.
#[derive(Clone, Copy, Debug, PartialEq, Eq, Structural)]
pub struct SkeletonBlock {
    pub transform: TransformComponent,
    pub sprite: SpriteComponent,
    pub buried: BuriedComponent,
}

impl Default for SkeletonBlock {
    fn default() -> (b: SkeletonBlock)
        ensures
            b.transform.position == (Position { x: 0, y: 0 }),
            b.sprite == (SpriteComponent { texture_index: 0, is_flipped: false }),
            b.buried == (BuriedComponent { is_dug: false, is_released: false }),
    {
        SkeletonBlock {
            transform: TransformComponent { position: Position { x: 0, y: 0 } },
            sprite: SpriteComponent { texture_index: 0, is_flipped: false },
            buried: BuriedComponent { is_dug: false, is_released: false },
        }
    }
}

impl Located for SkeletonBlock {
    open spec fn cell(&self) -> Cell {
        self.transform.position@
    }

    fn position(&self) -> (p: Position) {
        self.transform.position
    }
}

impl SkeletonBlock {
    /// The block after the player dug it open: dug, and shown open.
    pub open spec fn dug(self) -> SkeletonBlock {
        SkeletonBlock {
            buried: BuriedComponent { is_dug: true, is_released: self.buried.is_released },
            sprite: SpriteComponent { texture_index: TEXTURE_UNBURIED, is_flipped: self.sprite.is_flipped },
            transform: self.transform,
        }
    }

    /// Whether the skeleton inside is ready to climb out: dug up and not yet
    /// out.
    pub open spec fn can_release(self) -> bool {
        self.buried.is_dug && !self.buried.is_released
    }

    /// The block after its skeleton climbed out.
    pub open spec fn released(self) -> SkeletonBlock {
        SkeletonBlock {
            buried: BuriedComponent { is_dug: self.buried.is_dug, is_released: true },
            sprite: self.sprite,
            transform: self.transform,
        }
    }

    /// Digs the block open.
    pub fn dig(&mut self)
        ensures
            *final(self) == old(self).dug(),
    {
        self.buried.is_dug = true;
        self.sprite.texture_index = TEXTURE_UNBURIED;
    }

    /// Lets the skeleton out if the block is dug and the skeleton is still
    /// inside. Returns whether it came out just now.
    pub fn try_release(&mut self) -> (came_out: bool)
        ensures
            came_out == old(self).can_release(),
            came_out ==> *final(self) == old(self).released(),
            !came_out ==> *final(self) == *old(self),
            old(self).buried.is_released ==> final(self).buried.is_released,
    {
        if self.buried.is_released {
            return false;
        }
        if !self.buried.is_dug {
            return false;
        }
        self.buried.is_released = true;
        true
    }
}

/// How far a buried skeleton has come: untouched, dug up, or already out.
#[derive(Clone, Copy, Debug, PartialEq, Eq, Structural)]
pub struct BuriedComponent {
    pub is_dug: bool,
    pub is_released: bool,
}

impl Default for BuriedComponent {
    fn default() -> (b: BuriedComponent)
        ensures
            b == (BuriedComponent { is_dug: false, is_released: false }),
    {
        BuriedComponent { is_dug: false, is_released: false }
    }
}

/// Brings a position back into the world: the column is clamped to
/// `[0, GAME_BOUNDS_X]`, a row past `GAME_BOUNDS_Y` resets to 0. Returns
/// whether the row wrapped.
pub fn in_bounds(position: &mut Position) -> (warped: bool)
    ensures
        final(position).x == clamp_x(old(position).x as int),
        final(position).y == wrap_y(old(position).y as int),
        warped == (old(position).y > GAME_BOUNDS_Y),
        0 <= final(position).x <= GAME_BOUNDS_X,
        warped ==> final(position).y == 0,
{
    if position.x < 0 {
        position.x = 0;
    } else if position.x > GAME_BOUNDS_X {
        position.x = GAME_BOUNDS_X;
    }
    if position.y > GAME_BOUNDS_Y {
        position.y = 0;
        return true;
    }
    false
}

/// Particles of a hit.
pub const BLOOD_PARTICLES: i32 = 20;

impl World {
    /// The column step that brings skeleton `i` closer to the player: 1 to the
    /// right, -1 to the left, 0 when it is in the player's column.
    pub open spec fn skeleton_heading(self, i: int) -> int {
        let x = self.skeletons[i].transform.position.x;
        if x < self.player.transform.position.x {
            1
        } else if x > self.player.transform.position.x {
            -1
        } else {
            0
        }
    }

    /// The cell next to skeleton `i` on the side of the player.
    pub open spec fn skeleton_aim(self, i: int) -> Cell {
        self.skeletons[i].cell().offset(self.skeleton_heading(i), 0)
    }

    /// Whether skeleton `i` telegraphed an attack and the player is still on
    /// the cell it aimed at.
    pub open spec fn skeleton_strikes(self, i: int) -> bool {
        self.skeletons[i].ai.state == AiState::Attack && self.skeleton_aim(i) == self.player_cell()
    }

    /// Whether some skeleton strikes the player this turn.
    pub open spec fn player_struck(self) -> bool {
        exists|i: int| 0 <= i < self.skeletons.len() && #[trigger] self.skeleton_strikes(i)
    }

    /// Skeleton `i` after attack resolution: one that telegraphed goes back to
    /// walking, hit or miss, and has had its turn.
    pub open spec fn skeleton_attacked(self, i: int) -> Skeleton {
        let s = self.skeletons[i];
        if s.ai.state == AiState::Attack {
            Skeleton {
                ai: AiComponent { state: AiState::Walk, turn_taken: true },
                sprite: SpriteComponent {
                    texture_index: TEXTURE_SKELETON_NEUTRAL,
                    is_flipped: s.sprite.is_flipped,
                },
                transform: s.transform,
            }
        } else {
            s
        }
    }

    /// The world after attack resolution.
    pub open spec fn attacked(self) -> World {
        World {
            player: if self.player_struck() {
                Player {
                    is_alive: false,
                    sprite: SpriteComponent {
                        texture_index: TEXTURE_PLAYER_DEAD,
                        is_flipped: self.player.sprite.is_flipped,
                    },
                    ..self.player
                }
            } else {
                self.player
            },
            skeletons: Seq::new(self.skeletons.len(), |i: int| self.skeleton_attacked(i)),
            ..self
        }
    }

    /// The cues of attack resolution among the first `n` skeletons: a hit
    /// sound and blood for every strike, in order.
    pub open spec fn attack_cues(self, n: int) -> Seq<Cue>
        decreases n,
    {
        if n <= 0 {
            Seq::empty()
        } else if self.skeleton_strikes(n - 1) {
            self.attack_cues(n - 1).push(Cue::Sound(SOUND_HIT)).push(
                Cue::Emit(Effect::Blood, BLOOD_PARTICLES),
            )
        } else {
            self.attack_cues(n - 1)
        }
    }

    /// Whether skeleton `i` takes part in the walk: it walks and has not had
    /// its turn in this pass.
    pub open spec fn skeleton_walks(self, i: int) -> bool {
        self.skeletons[i].ai.state == AiState::Walk && !self.skeletons[i].ai.turn_taken
    }

    /// Whether skeleton `i` stands on something: the player, or anything
    /// solid.
    pub open spec fn skeleton_grounded(self, i: int) -> bool {
        let below = self.skeletons[i].cell().below();
        self.player_cell() == below || self.solid_at(below)
    }

    /// Whether skeleton `i` starts to telegraph: it takes part, stands on
    /// something, and its step towards the player would land on the player.
    pub open spec fn skeleton_wants_attack(self, i: int) -> bool {
        self.skeleton_walks(i) && self.skeleton_grounded(i) && self.skeleton_aim(i)
            == self.player_cell()
    }

    /// Whether skeleton `i` computes a cell to move to in this pass.
    pub open spec fn skeleton_claims(self, i: int) -> bool {
        self.skeleton_walks(i) && !self.skeleton_wants_attack(i)
    }

    /// Whether skeleton `i` turns to face the way it is heading.
    pub open spec fn skeleton_turns(self, i: int) -> bool {
        self.skeleton_walks(i) && self.skeleton_grounded(i) && self.skeleton_heading(i) != 0
    }

    /// Whether a skeleton `i` that stands on something has to stay put:
    /// the cell it aims at is solid, the player stands on a skeleton, a
    /// skeleton is right above it, or a skeleton is right above the cell it
    /// aims at.
    pub open spec fn skeleton_held_back(self, i: int) -> bool {
        ||| self.solid_at(self.skeleton_aim(i))
        ||| self.player.is_on_skeleton
        ||| occupied(self.skeletons, self.skeletons[i].cell().above())
        ||| occupied(self.skeletons, self.skeleton_aim(i).above())
    }

    /// The cell skeleton `i` makes for: down when it is in the air, else one
    /// step towards the player unless it is held back.
    pub open spec fn skeleton_desire(self, i: int) -> Cell {
        if !self.skeleton_grounded(i) {
            self.skeletons[i].cell().below()
        } else if self.skeleton_held_back(i) {
            self.skeletons[i].cell()
        } else {
            self.skeleton_aim(i)
        }
    }

    /// The cell skeleton `i` makes for, brought inside the world.
    pub open spec fn skeleton_target(self, i: int) -> Position {
        Position {
            x: clamp_x(self.skeleton_desire(i).x) as i32,
            y: wrap_y(self.skeleton_desire(i).y) as i32,
        }
    }

    /// Whether a skeleton before `i` in the list has computed `p` as the cell
    /// to move to.
    pub open spec fn target_taken_before(self, i: int, p: Position) -> bool {
        exists|j: int| 0 <= j < i && #[trigger] self.skeleton_claims(j) && self.skeleton_target(j) == p
    }

    /// Whether skeleton `i` gets the cell it makes for: first come, first
    /// served in list order.
    pub open spec fn skeleton_moves(self, i: int) -> bool {
        self.skeleton_claims(i) && !self.target_taken_before(i, self.skeleton_target(i))
    }

    /// Whether skeleton `i` leaves the world at the bottom and re-enters at
    /// the top.
    pub open spec fn skeleton_warps(self, i: int) -> bool {
        self.skeleton_claims(i) && self.skeleton_desire(i).y > GAME_BOUNDS_Y
    }

    /// Skeleton `i` after the walk.
    pub open spec fn skeleton_walked(self, i: int) -> Skeleton {
        let s = self.skeletons[i];
        Skeleton {
            transform: TransformComponent {
                position: if self.skeleton_moves(i) {
                    self.skeleton_target(i)
                } else {
                    s.transform.position
                },
            },
            sprite: SpriteComponent {
                texture_index: if self.skeleton_wants_attack(i) {
                    TEXTURE_SKELETON_ATTACK
                } else {
                    s.sprite.texture_index
                },
                is_flipped: if self.skeleton_turns(i) {
                    self.skeleton_heading(i) < 0
                } else {
                    s.sprite.is_flipped
                },
            },
            ai: AiComponent {
                state: if self.skeleton_wants_attack(i) {
                    AiState::Attack
                } else {
                    s.ai.state
                },
                turn_taken: s.ai.turn_taken,
            },
        }
    }

    /// The world after the walk.
    pub open spec fn walked(self) -> World {
        World {
            skeletons: Seq::new(self.skeletons.len(), |i: int| self.skeleton_walked(i)),
            ..self
        }
    }

    /// One telegraph sound for each of the first `n` skeletons that starts to
    /// telegraph.
    pub open spec fn walk_sounds(self, n: int) -> Seq<Cue>
        decreases n,
    {
        if n <= 0 {
            Seq::empty()
        } else if self.skeleton_wants_attack(n - 1) {
            self.walk_sounds(n - 1).push(Cue::Sound(SOUND_SKELETON))
        } else {
            self.walk_sounds(n - 1)
        }
    }

    /// One cue for each of the first `n` skeletons that wraps around.
    pub open spec fn walk_warps(self, n: int) -> Seq<Cue>
        decreases n,
    {
        if n <= 0 {
            Seq::empty()
        } else if self.skeleton_warps(n - 1) {
            self.walk_warps(n - 1).push(Cue::SkeletonWarped((n - 1) as usize))
        } else {
            self.walk_warps(n - 1)
        }
    }

    /// The cues of the walk: the telegraph sounds, then the wrap-arounds.
    pub open spec fn walk_cues(self) -> Seq<Cue> {
        self.walk_sounds(self.skeletons.len() as int) + self.walk_warps(self.skeletons.len() as int)
    }

    /// The world with every skeleton ready for the next pass.
    pub open spec fn turns_reset(self) -> World {
        World {
            skeletons: Seq::new(
                self.skeletons.len(),
                |i: int|
                    Skeleton {
                        ai: AiComponent { state: self.skeletons[i].ai.state, turn_taken: false },
                        ..self.skeletons[i]
                    },
            ),
            ..self
        }
    }
}

/// The column step from column `x` towards column `goal`.
fn heading(x: i32, goal: i32) -> (dx: i32)
    ensures
        dx == if x < goal {
            1int
        } else if x > goal {
            -1int
        } else {
            0int
        },
{
    if x < goal {
        1
    } else if x > goal {
        -1
    } else {
        0
    }
}

/// Attack resolution: every skeleton that telegraphed strikes the cell it
/// aimed at and goes back to walking. A strike on the player's cell kills the
/// player.
pub fn attack(game_state: &mut GameState) -> (cues: Vec<Cue>)
    ensures
        final(game_state)@ == old(game_state)@.attacked(),
        cues@ == old(game_state)@.attack_cues(old(game_state)@.skeletons.len() as int),
{
    let ghost before = game_state@;
    let mut cues: Vec<Cue> = Vec::new();
    let pos_player = game_state.player.transform.position;
    let mut struck = false;
    let mut i: usize = 0;
    while i < game_state.skeletons.len()
        invariant
            i <= game_state.skeletons.len(),
            game_state.skeletons.len() == before.skeletons.len(),
            pos_player == before.player.transform.position,
            game_state@ == (World { skeletons: game_state.skeletons@, ..before }),
            forall|j: int| 0 <= j < i ==> game_state.skeletons@[j] == before.skeleton_attacked(j),
            forall|j: int|
                i <= j < before.skeletons.len() ==> game_state.skeletons@[j] == before.skeletons[j],
            struck == (exists|j: int| 0 <= j < i && #[trigger] before.skeleton_strikes(j)),
            cues@ == before.attack_cues(i as int),
        decreases game_state.skeletons.len() - i,
    {
        let mut skeleton = game_state.skeletons[i];
        if skeleton.ai.state == AiState::Attack {
            let pos = skeleton.transform.position;
            let dx = heading(pos.x, pos_player.x);
            if pos_player.is_offset_of(&pos, dx, 0) {
                struck = true;
                cues.push(Cue::Sound(SOUND_HIT));
                cues.push(Cue::Emit(Effect::Blood, BLOOD_PARTICLES));
            }
            skeleton.ai.state = AiState::Walk;
            skeleton.sprite.texture_index = TEXTURE_SKELETON_NEUTRAL;
            skeleton.ai.turn_taken = true;
            game_state.skeletons.set(i, skeleton);
        }
        assert(before.skeleton_strikes(i as int) ==> (exists|j: int|
            0 <= j < i + 1 && #[trigger] before.skeleton_strikes(j)));
        i += 1;
    }
    if struck {
        game_state.player.is_alive = false;
        game_state.player.sprite.texture_index = TEXTURE_PLAYER_DEAD;
    }
    cues
}

/// Clears the turn marks of all skeletons.
pub fn reset_turns(game_state: &mut GameState)
    ensures
        final(game_state)@ == old(game_state)@.turns_reset(),
{
    let ghost before = game_state@;
    let mut i: usize = 0;
    while i < game_state.skeletons.len()
        invariant
            i <= game_state.skeletons.len(),
            game_state.skeletons.len() == before.skeletons.len(),
            game_state@ == (World { skeletons: game_state.skeletons@, ..before }),
            forall|j: int| 0 <= j < i ==> game_state.skeletons@[j] == before.turns_reset().skeletons[j],
            forall|j: int|
                i <= j < before.skeletons.len() ==> game_state.skeletons@[j] == before.skeletons[j],
        decreases game_state.skeletons.len() - i,
    {
        let mut skeleton = game_state.skeletons[i];
        skeleton.ai.turn_taken = false;
        game_state.skeletons.set(i, skeleton);
        i += 1;
    }
}

/// What one skeleton intends to do in a walk.
struct WalkPlan {
    walks: bool,
    wants_attack: bool,
    turns: bool,
    faces_left: bool,
    target: Position,
    warps: bool,
}

/// Works out what skeleton `i` intends to do, from the world as it stands.
fn plan_walk(game_state: &GameState, i: usize) -> (plan: WalkPlan)
    requires
        i < game_state.skeletons.len(),
    ensures
        plan.walks == game_state@.skeleton_walks(i as int),
        plan.wants_attack == game_state@.skeleton_wants_attack(i as int),
        plan.turns == game_state@.skeleton_turns(i as int),
        plan.faces_left == (game_state@.skeleton_heading(i as int) < 0),
        plan.walks && !plan.wants_attack ==> plan.target == game_state@.skeleton_target(i as int),
        plan.warps == game_state@.skeleton_warps(i as int),
{
    let skeleton = game_state.skeletons[i];
    let pos = skeleton.transform.position;
    let pos_player = game_state.player.transform.position;
    let walks = skeleton.ai.state == AiState::Walk && !skeleton.ai.turn_taken;
    let dx = heading(pos.x, pos_player.x);
    let mut plan = WalkPlan {
        walks,
        wants_attack: false,
        turns: false,
        faces_left: dx < 0,
        target: pos,
        warps: false,
    };
    if !walks {
        return plan;
    }
    let is_grounded = pos_player.is_offset_of(&pos, 0, 1) || any_at(&game_state.grasses, &pos, 0, 1)
        || any_at(&game_state.skeletons, &pos, 0, 1) || any_at(
        &game_state.skeleton_blocks,
        &pos,
        0,
        1,
    );
    let mut x: i64 = pos.x as i64;
    let mut y: i64 = pos.y as i64;
    if is_grounded {
        plan.turns = dx != 0;
        if pos_player.is_offset_of(&pos, dx, 0) {
            plan.wants_attack = true;
            return plan;
        }
        let is_occupied = any_at(&game_state.grasses, &pos, dx, 0) || any_at(
            &game_state.skeleton_blocks,
            &pos,
            dx,
            0,
        ) || any_at(&game_state.skeletons, &pos, dx, 0);
        let is_other_falling = any_at(&game_state.skeletons, &pos, dx, -1);
        let is_above = any_at(&game_state.skeletons, &pos, 0, -1);
        if !is_occupied && !game_state.player.is_on_skeleton && !is_above && !is_other_falling {
            x = x + dx as i64;
        }
    } else {
        y = y + 1;
    }
    plan.target.x = if x < 0 {
        0
    } else if x > GAME_BOUNDS_X as i64 {
        GAME_BOUNDS_X
    } else {
        x as i32
    };
    if y > GAME_BOUNDS_Y as i64 {
        plan.target.y = 0;
        plan.warps = true;
    } else {
        plan.target.y = y as i32;
    }
    plan
}

impl World {
    /// The cells taken before skeleton `i + 1` are those taken before
    /// skeleton `i`, and the target of skeleton `i` if it computes one.
    proof fn taken_one_more(self, i: int, p: Position)
        requires
            0 <= i,
        ensures
            self.target_taken_before(i + 1, p) <==> self.target_taken_before(i, p) || (
            self.skeleton_claims(i) && self.skeleton_target(i) == p),
    {
        if self.target_taken_before(i, p) {
            let j = choose|j: int|
                0 <= j < i && #[trigger] self.skeleton_claims(j) && self.skeleton_target(j) == p;
            assert(self.skeleton_claims(j) && self.skeleton_target(j) == p);
        }
        if self.skeleton_claims(i) && self.skeleton_target(i) == p {
            assert(self.target_taken_before(i + 1, p));
        }
    }
}

/// What a sequence contains after a push is what it contained before, and
/// the new item.
proof fn contains_after_push(items: Seq<Position>, item: Position, p: Position)
    ensures
        items.push(item).contains(p) <==> items.contains(p) || item == p,
{
    let pushed = items.push(item);
    if items.contains(p) {
        let k = choose|k: int| 0 <= k < items.len() && items[k] == p;
        assert(pushed[k] == p);
    }
    if item == p {
        assert(pushed[items.len() as int] == p);
    }
}

/// Whether `p` is among `taken`.
fn is_taken(taken: &Vec<Position>, p: &Position) -> (hit: bool)
    ensures
        hit == taken@.contains(*p),
{
    let mut k: usize = 0;
    while k < taken.len()
        invariant
            k <= taken.len(),
            forall|j: int| 0 <= j < k ==> taken@[j] != *p,
        decreases taken.len() - k,
    {
        if taken[k] == *p {
            return true;
        }
        k += 1;
    }
    false
}

/// The walk: every skeleton that walks and has not had its turn falls when in
/// the air, starts to telegraph when the player is one step away, and else
/// steps towards the player if nothing holds it back. All skeletons decide on
/// the world as it was before the walk. Where several make for the same cell,
/// the first in the list gets it and the others stay.
pub fn walk(game_state: &mut GameState) -> (cues: Vec<Cue>)
    ensures
        final(game_state)@ == old(game_state)@.walked(),
        cues@ == old(game_state)@.walk_cues(),
{
    let ghost before = game_state@;
    let mut cues: Vec<Cue> = Vec::new();
    let mut warps: Vec<Cue> = Vec::new();
    let mut taken: Vec<Position> = Vec::new();
    let mut next: Vec<Skeleton> = Vec::new();
    let mut i: usize = 0;
    while i < game_state.skeletons.len()
        invariant
            i <= game_state.skeletons.len(),
            game_state@ == before,
            next.len() == i,
            forall|j: int| 0 <= j < i ==> next@[j] == before.skeleton_walked(j),
            forall|p: Position| taken@.contains(p) <==> before.target_taken_before(i as int, p),
            cues@ == before.walk_sounds(i as int),
            warps@ == before.walk_warps(i as int),
        decreases game_state.skeletons.len() - i,
    {
        let plan = plan_walk(game_state, i);
        let mut skeleton = game_state.skeletons[i];
        let ghost taken_before = taken@;
        if plan.wants_attack {
            cues.push(Cue::Sound(SOUND_SKELETON));
            skeleton.sprite.texture_index = TEXTURE_SKELETON_ATTACK;
            skeleton.ai.state = AiState::Attack;
        } else if plan.walks {
            if plan.warps {
                warps.push(Cue::SkeletonWarped(i));
            }
            if !is_taken(&taken, &plan.target) {
                taken.push(plan.target);
                skeleton.transform.position = plan.target;
            }
        }
        if plan.turns {
            skeleton.sprite.is_flipped = plan.faces_left;
        }
        next.push(skeleton);
        proof {
            assert forall|p: Position| taken@.contains(p) <==> before.target_taken_before(
                i + 1,
                p,
            ) by {
                before.taken_one_more(i as int, p);
                if taken@ != taken_before {
                    contains_after_push(taken_before, plan.target, p);
                }
            }
        }
        i += 1;
    }
    cues.append(&mut warps);
    game_state.skeletons = next;
    cues
}

/// The skeletons' part of a turn: attack resolution, then the walk, then the
/// turn marks are cleared.
pub fn system(game_state: &mut GameState) -> (cues: Vec<Cue>)
    ensures
        final(game_state)@ == old(game_state)@.attacked().walked().turns_reset(),
        cues@ == old(game_state)@.attack_cues(old(game_state)@.skeletons.len() as int)
            + old(game_state)@.attacked().walk_cues(),
{
    let mut cues = attack(game_state);
    let mut walk_cues = walk(game_state);
    cues.append(&mut walk_cues);
    reset_turns(game_state);
    cues
}

impl World {
    /// Whether block `k`, taken alone, lets its skeleton out: it is dug and
    /// still full, there is a cell above it, and neither the player nor a
    /// skeleton is on that cell.
    pub open spec fn block_ready(self, k: int) -> bool {
        let block = self.skeleton_blocks[k];
        &&& block.can_release()
        &&& block.transform.position.y > i32::MIN
        &&& self.player_cell() != block.cell().above()
        &&& !occupied(self.skeletons, block.cell().above())
    }

    /// Whether a block before block `k` in the list is ready and has cell
    /// `c` above it.
    pub open spec fn ready_below_before(self, k: int, c: Cell) -> bool {
        exists|j: int|
            0 <= j < k && #[trigger] self.block_ready(j) && self.skeleton_blocks[j].cell().above() == c
    }

    /// Whether block `k` lets its skeleton out in this pass. A skeleton that
    /// came out earlier in the pass occupies its cell, so of several ready
    /// blocks under one cell only the first releases.
    pub open spec fn block_releases(self, k: int) -> bool {
        self.block_ready(k) && !self.ready_below_before(k, self.skeleton_blocks[k].cell().above())
    }

    /// The ready blocks before block `k + 1` are those before block `k`, and
    /// block `k` if it is ready.
    proof fn ready_one_more(self, k: int, c: Cell)
        requires
            0 <= k,
        ensures
            self.ready_below_before(k + 1, c) <==> self.ready_below_before(k, c) || (self.block_ready(k)
                && self.skeleton_blocks[k].cell().above() == c),
    {
        if self.ready_below_before(k, c) {
            let j = choose|j: int|
                0 <= j < k && #[trigger] self.block_ready(j) && self.skeleton_blocks[j].cell().above()
                    == c;
            assert(self.block_ready(j) && self.skeleton_blocks[j].cell().above() == c);
        }
        if self.block_ready(k) && self.skeleton_blocks[k].cell().above() == c {
            assert(self.ready_below_before(k + 1, c));
        }
    }

    /// The skeleton that comes out of block `k`: on the cell above the block,
    /// telegraphing, and facing the player.
    pub open spec fn hatchling(self, k: int) -> Skeleton {
        let at = self.skeleton_blocks[k].transform.position;
        Skeleton {
            transform: TransformComponent { position: Position { x: at.x, y: (at.y - 1) as i32 } },
            sprite: SpriteComponent {
                texture_index: TEXTURE_SKELETON_ATTACK,
                is_flipped: self.player.transform.position.x <= at.x,
            },
            ai: AiComponent { state: AiState::Attack, turn_taken: false },
        }
    }

    /// The skeletons that come out of the first `n` blocks, in order.
    pub open spec fn hatched(self, n: int) -> Seq<Skeleton>
        decreases n,
    {
        if n <= 0 {
            Seq::empty()
        } else if self.block_releases(n - 1) {
            self.hatched(n - 1).push(self.hatchling(n - 1))
        } else {
            self.hatched(n - 1)
        }
    }

    /// One sound for each of the first `n` blocks that releases.
    pub open spec fn release_cues(self, n: int) -> Seq<Cue>
        decreases n,
    {
        if n <= 0 {
            Seq::empty()
        } else if self.block_releases(n - 1) {
            self.release_cues(n - 1).push(Cue::Sound(SOUND_SKELETON))
        } else {
            self.release_cues(n - 1)
        }
    }

    /// The world after the release check.
    pub open spec fn blocks_released(self) -> World {
        World {
            skeleton_blocks: Seq::new(
                self.skeleton_blocks.len(),
                |k: int|
                    if self.block_releases(k) {
                        self.skeleton_blocks[k].released()
                    } else {
                        self.skeleton_blocks[k]
                    },
            ),
            skeletons: self.skeletons + self.hatched(self.skeleton_blocks.len() as int),
            ..self
        }
    }
}

/// A cell is occupied after a push if it was before or the new item is on it.
proof fn occupied_after_push(items: Seq<Skeleton>, item: Skeleton, c: Cell)
    ensures
        occupied(items.push(item), c) <==> occupied(items, c) || item.cell() == c,
{
    let pushed = items.push(item);
    if occupied(items, c) {
        let i = choose|i: int| 0 <= i < items.len() && (#[trigger] items[i]).cell() == c;
        assert(pushed[i].cell() == c);
    }
    if item.cell() == c {
        assert(pushed[items.len() as int].cell() == c);
    }
}

/// The release check: every dug block whose skeleton is still inside lets it
/// out onto the cell above, unless the player or a skeleton is on that cell.
pub fn block_system(game_state: &mut GameState) -> (cues: Vec<Cue>)
    ensures
        final(game_state)@ == old(game_state)@.blocks_released(),
        cues@ == old(game_state)@.release_cues(old(game_state)@.skeleton_blocks.len() as int),
{
    let ghost before = game_state@;
    let mut cues: Vec<Cue> = Vec::new();
    let pos_player = game_state.player.transform.position;
    let mut k: usize = 0;
    while k < game_state.skeleton_blocks.len()
        invariant
            k <= game_state.skeleton_blocks.len(),
            game_state.skeleton_blocks.len() == before.skeleton_blocks.len(),
            pos_player == before.player.transform.position,
            game_state@ == (World {
                skeleton_blocks: game_state.skeleton_blocks@,
                skeletons: game_state.skeletons@,
                ..before
            }),
            game_state.skeletons@ == before.skeletons + before.hatched(k as int),
            forall|c: Cell|
                occupied(game_state.skeletons@, c) <==> occupied(before.skeletons, c)
                    || before.ready_below_before(k as int, c),
            forall|j: int|
                0 <= j < k ==> game_state.skeleton_blocks@[j] == before.blocks_released().skeleton_blocks[j],
            forall|j: int|
                k <= j < before.skeleton_blocks.len() ==> game_state.skeleton_blocks@[j]
                    == before.skeleton_blocks[j],
            cues@ == before.release_cues(k as int),
        decreases game_state.skeleton_blocks.len() - k,
    {
        let mut block = game_state.skeleton_blocks[k];
        let pos = block.transform.position;
        let ghost skeletons_before = game_state.skeletons@;
        let mut released = false;
        if pos.y > i32::MIN {
            let is_occupied = pos_player.is_offset_of(&pos, 0, -1) || any_at(
                &game_state.skeletons,
                &pos,
                0,
                -1,
            );
            if !is_occupied && block.try_release() {
                released = true;
                game_state.skeleton_blocks.set(k, block);
                let new_skeleton = Skeleton {
                    transform: TransformComponent { position: Position { x: pos.x, y: pos.y - 1 } },
                    sprite: SpriteComponent {
                        texture_index: TEXTURE_SKELETON_ATTACK,
                        is_flipped: !(pos_player.x > pos.x),
                    },
                    ai: AiComponent { state: AiState::Attack, turn_taken: false },
                };
                game_state.skeletons.push(new_skeleton);
                cues.push(Cue::Sound(SOUND_SKELETON));
            }
        }
        proof {
            assert forall|c: Cell|
                occupied(game_state.skeletons@, c) <==> occupied(before.skeletons, c)
                    || before.ready_below_before(k + 1, c) by {
                before.ready_one_more(k as int, c);
                if released {
                    occupied_after_push(skeletons_before, before.hatchling(k as int), c);
                }
            }
        }
        k += 1;
    }
    cues
}

/// A skeleton that telegraphed an attack and finds the player gone from the
/// cell it aimed at goes back to walking and does not strike. If no skeleton
/// strikes, attack resolution leaves the player as it was.
pub proof fn missed_attack_spares_player(w: World, i: int)
    requires
        0 <= i < w.skeletons.len(),
        w.skeletons[i].ai.state == AiState::Attack,
        w.skeleton_aim(i) != w.player_cell(),
    ensures
        !w.skeleton_strikes(i),
        w.attacked().skeletons[i].ai.state == AiState::Walk,
        w.attacked().skeletons[i].transform == w.skeletons[i].transform,
        !w.player_struck() ==> w.attacked().player == w.player,
        w.player_struck() ==> exists|j: int|
            0 <= j < w.skeletons.len() && j != i && #[trigger] w.skeleton_strikes(j),
{
}

/// The life of a skeleton block. A block that is not dug does not release. A
/// block that is dug and still full releases, and after that it never
/// releases again: being released is for good.
pub proof fn release_happens_once(block: SkeletonBlock)
    ensures
        !block.buried.is_dug ==> !block.can_release(),
        block.buried.is_released ==> !block.can_release(),
        !block.buried.is_released ==> block.dug().can_release(),
        !block.released().can_release(),
        !block.dug().released().can_release(),
        block.released().buried.is_released,
        block.dug().buried.is_released == block.buried.is_released,
        block.released().dug().buried.is_released,
{
}

/// A block that lets its skeleton out in a release check is released after
/// it, and is not ready in the next one: the skeleton comes out once.
pub proof fn released_block_is_spent(w: World, k: int)
    requires
        0 <= k < w.skeleton_blocks.len(),
        w.block_releases(k),
    ensures
        w.skeleton_blocks[k].buried.is_dug,
        !w.skeleton_blocks[k].buried.is_released,
        w.blocks_released().skeleton_blocks[k].buried.is_released,
        !w.blocks_released().block_ready(k),
        !w.blocks_released().block_releases(k),
{
}

/// A block that is not dug, or whose skeleton is out, stays as it is in a
/// release check.
pub proof fn unready_block_is_left_alone(w: World, k: int)
    requires
        0 <= k < w.skeleton_blocks.len(),
        !w.skeleton_blocks[k].can_release(),
    ensures
        !w.block_releases(k),
        w.blocks_released().skeleton_blocks[k] == w.skeleton_blocks[k],
{
}

/// Every skeleton that takes a cell in a walk is inside the world's columns
/// afterwards, and one that left the world at the bottom is on row 0.
pub proof fn walk_keeps_skeletons_in_bounds(w: World, i: int)
    requires
        0 <= i < w.skeletons.len(),
        w.skeleton_moves(i),
    ensures
        0 <= w.walked().skeletons[i].transform.position.x <= GAME_BOUNDS_X,
        w.walked().skeletons[i].transform.position.y <= GAME_BOUNDS_Y,
        w.skeleton_warps(i) ==> w.walked().skeletons[i].transform.position.y == 0,
        w.walked().skeletons[i].transform.position == w.skeleton_target(i),
{
}

/// No two skeletons take the same cell in one walk.
pub proof fn walkers_take_distinct_cells(w: World, i: int, j: int)
    requires
        0 <= i < j < w.skeletons.len(),
        w.skeleton_moves(i),
        w.skeleton_moves(j),
    ensures
        w.walked().skeletons[i].transform.position != w.walked().skeletons[j].transform.position,
{
}

/// A skeleton that loses the cell it makes for to one earlier in the list
/// stays where it is.
pub proof fn later_claimant_stays(w: World, i: int, j: int)
    requires
        0 <= i < j < w.skeletons.len(),
        w.skeleton_claims(i),
        w.skeleton_claims(j),
        w.skeleton_target(i) == w.skeleton_target(j),
    ensures
        !w.skeleton_moves(j),
        w.walked().skeletons[j].transform == w.skeletons[j].transform,
{
}

} // verus!
