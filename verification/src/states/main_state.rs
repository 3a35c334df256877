//! One frame's worth of decisions: the turn as a whole, and restarting.

use vstd::prelude::*;
use crate::constantes::{GAME_BOUNDS_X, GAME_BOUNDS_Y};
use crate::cue::{Cue, SOUND_RESTART};
use crate::entities::ai::AiState;
use crate::entities::player::{Player, PlayerInputIntent, TEXTURE_PLAYER};
use crate::entities::skeleton;
use crate::entities::skeleton::Skeleton;
use crate::map::{clear_map, cleared};
use crate::sprite::SpriteComponent;
use crate::states::game_state::{GameState, World};
use crate::transform_compontent::{first_at_is_first, occupied, Cell, Located};

verus! {

impl World {
    /// The world after the enemies' part of a turn: attack resolution, the
    /// walk, the clearing of the turn marks, and the release check.
    pub open spec fn enemies_moved(self) -> World {
        self.attacked().walked().turns_reset().blocks_released()
    }

    /// The cues of the enemies' part of a turn.
    pub open spec fn enemy_cues(self) -> Seq<Cue> {
        self.attack_cues(self.skeletons.len() as int) + self.attacked().walk_cues()
            + self.attacked().walked().turns_reset().release_cues(self.skeleton_blocks.len() as int)
    }

    /// The world after a whole turn in which the level goes on: the player's
    /// part, then the enemies' part.
    pub open spec fn turn(self) -> World {
        self.player_moved().enemies_moved()
    }

    /// The world made ready for a restart: the map is taken away, and a game
    /// that was played through starts over.
    pub open spec fn restarted(self) -> World {
        World { is_all_levels_completed: false, ..cleared(self) }
    }
}

/// The enemies' part of a turn. It follows the player's part, after the next
/// map was loaded if the player's part asked for that.
pub fn enemies_turn(game_state: &mut GameState) -> (cues: Vec<Cue>)
    ensures
        final(game_state)@ == old(game_state)@.enemies_moved(),
        cues@ == old(game_state)@.enemy_cues(),
{
    let mut cues = skeleton::system(game_state);
    let mut release_cues = skeleton::block_system(game_state);
    cues.append(&mut release_cues);
    cues
}

/// Gets ready to play the current level from its start: a game that was
/// played through goes back to the first level, and the map is taken away.
/// The caller then loads level `current_map` and plays the cue.
pub fn restart_current_map(game_state: &mut GameState, current_map: &mut usize) -> (cue: Cue)
    ensures
        final(game_state)@ == old(game_state)@.restarted(),
        *final(current_map) == if old(game_state)@.is_all_levels_completed {
            0
        } else {
            *old(current_map)
        },
        cue == Cue::Sound(SOUND_RESTART),
{
    if game_state.is_all_levels_completed {
        *current_map = 0;
        game_state.is_all_levels_completed = false;
    }
    clear_map(game_state);
    Cue::Sound(SOUND_RESTART)
}

impl World {
    /// Whether skeleton `i` has nothing to do: it walks, has not had its
    /// turn, stands on something inside the world, is not one step from the
    /// player, and is held back.
    pub open spec fn skeleton_settled(self, i: int) -> bool {
        let s = self.skeletons[i];
        &&& s.ai.state == AiState::Walk
        &&& !s.ai.turn_taken
        &&& self.skeleton_grounded(i)
        &&& self.skeleton_aim(i) != self.player_cell()
        &&& self.skeleton_held_back(i)
        &&& 0 <= s.transform.position.x <= GAME_BOUNDS_X
        &&& s.transform.position.y <= GAME_BOUNDS_Y
    }

    /// Whether the world is at rest: no move is pending, the player stands
    /// on something inside the world's columns, every skeleton is settled,
    /// and no block is ready to let its skeleton out.
    pub open spec fn at_rest(self) -> bool {
        &&& self.player.input_intent == PlayerInputIntent::Idle
        &&& self.player_grounded()
        &&& 0 <= self.player.transform.position.x <= GAME_BOUNDS_X
        &&& forall|i: int| 0 <= i < self.skeletons.len() ==> #[trigger] self.skeleton_settled(i)
        &&& forall|k: int| 0 <= k < self.skeleton_blocks.len() ==> !#[trigger] self.block_ready(k)
    }

    /// What a turn makes of a world at rest: the player is shown standing,
    /// and every skeleton faces the player's column. Nothing moves.
    pub open spec fn rested(self) -> World {
        World {
            player: Player {
                sprite: SpriteComponent {
                    texture_index: TEXTURE_PLAYER,
                    is_flipped: self.player.sprite.is_flipped,
                },
                prev_grounded: true,
                ..self.player
            },
            skeletons: Seq::new(
                self.skeletons.len(),
                |i: int|
                    Skeleton {
                        sprite: SpriteComponent {
                            texture_index: self.skeletons[i].sprite.texture_index,
                            is_flipped: if self.skeleton_heading(i) != 0 {
                                self.skeleton_heading(i) < 0
                            } else {
                                self.skeletons[i].sprite.is_flipped
                            },
                        },
                        ..self.skeletons[i]
                    },
            ),
            ..self
        }
    }

    /// Whether two worlds have everything on the same cells and the
    /// skeletons in the same states, so that every mover decides alike in
    /// both.
    pub open spec fn same_layout(self, other: World) -> bool {
        &&& self.grasses == other.grasses
        &&& self.skeleton_blocks == other.skeleton_blocks
        &&& self.player.transform == other.player.transform
        &&& self.player.is_on_skeleton == other.player.is_on_skeleton
        &&& self.skeletons.len() == other.skeletons.len()
        &&& forall|i: int|
            0 <= i < self.skeletons.len() ==> (#[trigger] self.skeletons[i]).transform
                == other.skeletons[i].transform && self.skeletons[i].ai == other.skeletons[i].ai
    }
}

/// In two worlds with the same layout the same cells are taken.
proof fn same_layout_same_cells(v: World, w: World)
    requires
        v.same_layout(w),
    ensures
        forall|c: Cell| occupied(v.skeletons, c) == occupied(w.skeletons, c),
        forall|c: Cell| v.solid_at(c) == w.solid_at(c),
{
    assert forall|c: Cell| occupied(w.skeletons, c) implies occupied(v.skeletons, c) by {
        let i = choose|i: int| 0 <= i < w.skeletons.len() && (#[trigger] w.skeletons[i]).cell() == c;
        assert(v.skeletons[i].transform == w.skeletons[i].transform);
    }
}

/// In two worlds with the same layout every skeleton and every block decides
/// alike.
proof fn same_layout_same_decisions(v: World, w: World)
    requires
        v.same_layout(w),
    ensures
        forall|i: int|
            0 <= i < w.skeletons.len() ==> {
                &&& #[trigger] v.skeleton_heading(i) == w.skeleton_heading(i)
                &&& v.skeleton_aim(i) == w.skeleton_aim(i)
                &&& v.skeleton_grounded(i) == w.skeleton_grounded(i)
                &&& v.skeleton_held_back(i) == w.skeleton_held_back(i)
                &&& v.skeleton_settled(i) == w.skeleton_settled(i)
                &&& v.skeleton_strikes(i) == w.skeleton_strikes(i)
            },
        forall|k: int|
            0 <= k < w.skeleton_blocks.len() ==> #[trigger] v.block_ready(k) == w.block_ready(k),
        v.player_grounded() == w.player_grounded(),
{
    same_layout_same_cells(v, w);
}

/// Where no block releases, no skeleton comes out and nothing is heard.
proof fn nothing_hatches(w: World, n: int)
    requires
        forall|k: int| 0 <= k < n ==> !#[trigger] w.block_ready(k),
    ensures
        w.hatched(n) == Seq::<Skeleton>::empty(),
        w.release_cues(n) == Seq::<Cue>::empty(),
    decreases n,
{
    if n > 0 {
        nothing_hatches(w, n - 1);
    }
}

/// Where no skeleton strikes, telegraphs or wraps around, the skeletons'
/// part of a turn is silent.
proof fn settled_skeletons_are_silent(w: World, n: int)
    requires
        0 <= n <= w.skeletons.len(),
        forall|i: int| 0 <= i < w.skeletons.len() ==> #[trigger] w.skeleton_settled(i),
    ensures
        w.attack_cues(n) == Seq::<Cue>::empty(),
        w.walk_sounds(n) == Seq::<Cue>::empty(),
        w.walk_warps(n) == Seq::<Cue>::empty(),
    decreases n,
{
    if n > 0 {
        settled_skeletons_are_silent(w, n - 1);
        assert(w.skeleton_settled(n - 1));
    }
}

/// A turn makes of a world at rest what `rested` says, without a cue.
pub proof fn turn_at_rest(w: World)
    requires
        w.at_rest(),
    ensures
        w.turn() == w.rested(),
        !w.player_exits(),
        w.player_cues() == Seq::<Cue>::empty(),
        w.player_moved().enemy_cues() == Seq::<Cue>::empty(),
{
    let w1 = w.player_moved();
    same_layout_same_decisions(w1, w);
    assert forall|i: int| 0 <= i < w1.skeletons.len() implies #[trigger] w1.skeleton_settled(i) by {
        assert(w.skeleton_settled(i));
    }
    settled_skeletons_are_silent(w1, w1.skeletons.len() as int);

    // No skeleton telegraphs, so attack resolution changes nothing.
    let w2 = w1.attacked();
    assert(w2.skeletons =~= w1.skeletons) by {
        assert forall|i: int| 0 <= i < w1.skeletons.len() implies w1.skeleton_attacked(i)
            == w1.skeletons[i] by {
            assert(w1.skeleton_settled(i));
        }
    }

    // Every skeleton is held back, so the walk only turns the skeletons.
    let w3 = w2.walked();
    assert(w3.skeletons =~= w.rested().skeletons) by {
        assert forall|i: int| 0 <= i < w1.skeletons.len() implies w1.skeleton_walked(i)
            == w.rested().skeletons[i] by {
            assert(w1.skeleton_settled(i));
        }
    }

    // No skeleton carries a turn mark.
    let w4 = w3.turns_reset();
    assert(w4.skeletons =~= w3.skeletons) by {
        assert forall|i: int| 0 <= i < w3.skeletons.len() implies w4.skeletons[i] == w3.skeletons[i] by {
            assert(w.skeleton_settled(i));
        }
    }

    // No block is ready, so none releases.
    same_layout_same_decisions(w4, w);
    nothing_hatches(w4, w4.skeleton_blocks.len() as int);
    let w5 = w4.blocks_released();
    assert(w5.skeleton_blocks =~= w4.skeleton_blocks);
}

/// A world at rest that has had its turn is still at rest, and another turn
/// would leave it as it is.
pub proof fn rested_stays_at_rest(w: World)
    requires
        w.at_rest(),
    ensures
        w.rested().at_rest(),
        w.rested().rested() == w.rested(),
{
    let r = w.rested();
    same_layout_same_decisions(r, w);
    assert forall|i: int| 0 <= i < r.skeletons.len() implies #[trigger] r.skeleton_settled(i) by {
        assert(w.skeleton_settled(i));
    }
    assert(r.rested().skeletons =~= r.skeletons);
}

/// A turn is idempotent on a world at rest: with no move pending, the player
/// and all skeletons on the ground inside the world, no skeleton one step
/// from the player or free to step, and no block ready to release, a second
/// turn leaves what the first one left. Neither turn gives a cue.
pub proof fn turn_at_rest_is_idempotent(w: World)
    requires
        w.at_rest(),
    ensures
        w.turn().turn() == w.turn(),
        w.turn().at_rest(),
{
    turn_at_rest(w);
    rested_stays_at_rest(w);
    turn_at_rest(w.rested());
}

/// The skeletons that come out of the first `n` blocks have had no turn.
proof fn hatchlings_are_unmarked(w: World, n: int, i: int)
    requires
        0 <= i < w.hatched(n).len(),
    ensures
        !w.hatched(n)[i].ai.turn_taken,
    decreases n,
{
    if n > 0 {
        if w.block_releases(n - 1) {
            if i < w.hatched(n - 1).len() {
                hatchlings_are_unmarked(w, n - 1, i);
            }
        } else {
            hatchlings_are_unmarked(w, n - 1, i);
        }
    }
}

/// When the enemies' part of a turn is over, no skeleton carries a turn
/// mark, whichever marks there were before.
pub proof fn turn_marks_are_cleared(w: World, i: int)
    requires
        0 <= i < w.enemies_moved().skeletons.len(),
    ensures
        !w.enemies_moved().skeletons[i].ai.turn_taken,
{
    let reset = w.attacked().walked().turns_reset();
    if i >= reset.skeletons.len() {
        hatchlings_are_unmarked(reset, reset.skeleton_blocks.len() as int, i - reset.skeletons.len());
    }
}

/// A skeleton that is out of its block stays out: neither part of a turn
/// ever takes the release back, and a turn in which the level goes on keeps
/// every block in its place in the list.
pub proof fn release_is_for_good(w: World, k: int)
    requires
        0 <= k < w.skeleton_blocks.len(),
        w.skeleton_blocks[k].buried.is_released,
    ensures
        w.player_moved().skeleton_blocks.len() == w.skeleton_blocks.len(),
        w.player_moved().skeleton_blocks[k].buried.is_released,
        w.enemies_moved().skeleton_blocks.len() == w.skeleton_blocks.len(),
        w.enemies_moved().skeleton_blocks[k].buried.is_released,
        w.turn().skeleton_blocks.len() == w.skeleton_blocks.len(),
        w.turn().skeleton_blocks[k].buried.is_released,
{
    first_at_is_first(w.skeleton_blocks, w.player_cell().below());
    let moved = w.player_moved();
}

} // verus!
