//! The level list and the map loader.

use vstd::prelude::*;
use crate::entities::foilage::{Grass, TEXTURE_GROUND, TEXTURE_GROUND_BELOW};
use crate::entities::player::{Player, PlayerInputIntent};
use crate::entities::skeleton::{BuriedComponent, SkeletonBlock, TEXTURE_BURIED};
use crate::entities::teleporter::{Exit, Teleporter};
use crate::sprite::SpriteComponent;
use crate::states::game_state::{GameState, World};
use crate::transform_compontent::{Cell, Position, TransformComponent};

verus! {

/// Number of levels.
pub const MAP_COUNT: usize = 27;

/// The resource path of level `index`, for `0 <= index < MAP_COUNT`.
pub open spec fn map_name(index: int) -> Seq<char> {
    if index == 0 {
        "/maps/map_first.txt"@
    } else if index == 1 {
        "/maps/map_1skeleton.txt"@
    } else if index == 2 {
        "/maps/map_2skeleton.txt"@
    } else if index == 3 {
        "/maps/map_gravity.txt"@
    } else if index == 4 {
        "/maps/map_teleport.txt"@
    } else if index == 5 {
        "/maps/map_simple_backtrack.txt"@
    } else if index == 6 {
        "/maps/map_follow.txt"@
    } else if index == 7 {
        "/maps/map_middleclash.txt"@
    } else if index == 8 {
        "/maps/map_2skeleton_intro.txt"@
    } else if index == 9 {
        "/maps/map_2skeleton_backtrack.txt"@
    } else if index == 10 {
        "/maps/map_force_stand.txt"@
    } else if index == 11 {
        "maps/map_fall_trap.txt"@
    } else if index == 12 {
        "/maps/map_skeleton_hole.txt"@
    } else if index == 13 {
        "/maps/map_easy_accidental_fall.txt"@
    } else if index == 14 {
        "/maps/map_easy3.txt"@
    } else if index == 15 {
        "/maps/map_easy1.txt"@
    } else if index == 16 {
        "/maps/map_maze1.txt"@
    } else if index == 17 {
        "/maps/map_follow_2.txt"@
    } else if index == 18 {
        "/maps/map_easy2.txt"@
    } else if index == 19 {
        "/maps/map_3skeleton.txt"@
    } else if index == 20 {
        "/maps/map_3skeleton_3holes.txt"@
    } else if index == 21 {
        "/maps/map_skeleton_platform.txt"@
    } else if index == 22 {
        "/maps/map_middleclash_2.txt"@
    } else if index == 23 {
        "/maps/map_3skeleton_3holes_harder.txt"@
    } else if index == 24 {
        "/maps/map_hard1.txt"@
    } else if index == 25 {
        "/maps/map_hard3.txt"@
    } else {
        "/maps/map_hard2.txt"@
    }
}

/// The resource path of level `index`.
pub fn get_map_name(index: usize) -> (name: &'static str)
    requires
        index < MAP_COUNT,
    ensures
        name@ == map_name(index as int),
{
    match index {
        0 => "/maps/map_first.txt",
        1 => "/maps/map_1skeleton.txt",
        2 => "/maps/map_2skeleton.txt",
        3 => "/maps/map_gravity.txt",
        4 => "/maps/map_teleport.txt",
        5 => "/maps/map_simple_backtrack.txt",
        6 => "/maps/map_follow.txt",
        7 => "/maps/map_middleclash.txt",
        8 => "/maps/map_2skeleton_intro.txt",
        9 => "/maps/map_2skeleton_backtrack.txt",
        10 => "/maps/map_force_stand.txt",
        11 => "maps/map_fall_trap.txt",
        12 => "/maps/map_skeleton_hole.txt",
        13 => "/maps/map_easy_accidental_fall.txt",
        14 => "/maps/map_easy3.txt",
        15 => "/maps/map_easy1.txt",
        16 => "/maps/map_maze1.txt",
        17 => "/maps/map_follow_2.txt",
        18 => "/maps/map_easy2.txt",
        19 => "/maps/map_3skeleton.txt",
        20 => "/maps/map_3skeleton_3holes.txt",
        21 => "/maps/map_skeleton_platform.txt",
        22 => "/maps/map_middleclash_2.txt",
        23 => "/maps/map_3skeleton_3holes_harder.txt",
        24 => "/maps/map_hard1.txt",
        25 => "/maps/map_hard3.txt",
        _ => "/maps/map_hard2.txt",
    }
}

/// The world with the map taken away: no tiles, skeletons, plants or
/// portals. The player, the exit and the end-of-game mark stay.
pub open spec fn cleared(w: World) -> World {
    World {
        grasses: Seq::empty(),
        skeletons: Seq::empty(),
        skeleton_blocks: Seq::empty(),
        foilages: Seq::empty(),
        teleporters: seq![None, None],
        ..w
    }
}

/// Takes the map away.
pub fn clear_map(game_state: &mut GameState)
    ensures
        final(game_state)@ == cleared(old(game_state)@),
{
    game_state.grasses.clear();
    game_state.skeletons.clear();
    game_state.skeleton_blocks.clear();
    game_state.foilages.clear();
    game_state.teleporters[0] = None;
    game_state.teleporters[1] = None;
}

/// Texture of a teleporter.
pub const TEXTURE_TELEPORTER: usize = 5;

/// Texture of the exit.
pub const TEXTURE_EXIT: usize = 6;

/// The cell of character number `n` of a map grid. Characters are laid out
/// left to right from (0, 0); a newline ends the row.
pub open spec fn cursor(grid: Seq<char>, n: int) -> Cell
    decreases n,
{
    if n <= 0 {
        Cell { x: 0, y: 0 }
    } else {
        let before = cursor(grid, n - 1);
        if grid[n - 1] == '\n' {
            Cell { x: 0, y: before.y + 1 }
        } else {
            Cell { x: before.x + 1, y: before.y }
        }
    }
}

/// The world with what map character `ch` stands for put at `at`:
/// `0` the player, `1` a ground tile, `2` a skeleton block, `3` a teleporter
/// in the first free slot, `4` the exit, `5` a ground tile of the alternate
/// kind. Any other character leaves the cell empty, and so does a `3` when
/// both slots are full.
pub open spec fn placed(w: World, ch: char, at: Position) -> World {
    let transform = TransformComponent { position: at };
    if ch == '0' {
        World { player: Player::fresh(at), ..w }
    } else if ch == '1' {
        World {
            grasses: w.grasses.push(
                Grass {
                    transform,
                    sprite: SpriteComponent { texture_index: TEXTURE_GROUND, is_flipped: false },
                },
            ),
            ..w
        }
    } else if ch == '2' {
        World {
            skeleton_blocks: w.skeleton_blocks.push(
                SkeletonBlock {
                    transform,
                    sprite: SpriteComponent { texture_index: TEXTURE_BURIED, is_flipped: false },
                    buried: BuriedComponent { is_dug: false, is_released: false },
                },
            ),
            ..w
        }
    } else if ch == '3' {
        let teleporter = Teleporter {
            transform,
            sprite: SpriteComponent { texture_index: TEXTURE_TELEPORTER, is_flipped: false },
        };
        if w.teleporters[0].is_none() {
            World { teleporters: w.teleporters.update(0, Some(teleporter)), ..w }
        } else if w.teleporters[1].is_none() {
            World { teleporters: w.teleporters.update(1, Some(teleporter)), ..w }
        } else {
            w
        }
    } else if ch == '4' {
        World {
            exit: Exit {
                transform,
                sprite: SpriteComponent { texture_index: TEXTURE_EXIT, is_flipped: false },
            },
            ..w
        }
    } else if ch == '5' {
        World {
            grasses: w.grasses.push(
                Grass {
                    transform,
                    sprite: SpriteComponent { texture_index: TEXTURE_GROUND_BELOW, is_flipped: false },
                },
            ),
            ..w
        }
    } else {
        w
    }
}

/// The world `w` with the first `n` characters of a map grid placed on it.
pub open spec fn loaded(w: World, grid: Seq<char>, n: int) -> World
    decreases n,
{
    if n <= 0 {
        w
    } else {
        let at = cursor(grid, n - 1);
        placed(loaded(w, grid, n - 1), grid[n - 1], Position { x: at.x as i32, y: at.y as i32 })
    }
}

/// No character of a grid lies further right or further down than its number.
pub proof fn cursor_within(grid: Seq<char>, n: int)
    requires
        0 <= n,
    ensures
        0 <= cursor(grid, n).x <= n,
        0 <= cursor(grid, n).y <= n,
    decreases n,
{
    if n > 0 {
        cursor_within(grid, n - 1);
    }
}

/// Puts the entities of a map grid onto the state, on top of what is there.
pub fn load_map(game_state: &mut GameState, grid: &str)
    requires
        grid@.len() <= i32::MAX,
    ensures
        final(game_state)@ == loaded(old(game_state)@, grid@, grid@.len() as int),
{
    let ghost before = game_state@;
    let mut x: i32 = 0;
    let mut y: i32 = 0;
    for ch in it: grid.chars()
        invariant
            it.seq() == grid@,
            grid@.len() <= i32::MAX,
            cursor(grid@, it.index() as int) == (Cell { x: x as int, y: y as int }),
            game_state@ == loaded(before, grid@, it.index() as int),
    {
        let ghost n = it.index() as int;
        proof {
            cursor_within(grid@, n);
        }
        let at = Position { x, y };
        let transform = TransformComponent { position: at };
        match ch {
            '0' => {
                game_state.player = Player {
                    transform,
                    sprite: SpriteComponent { texture_index: 0, is_flipped: false },
                    input_intent: PlayerInputIntent::Idle,
                    is_alive: true,
                    is_on_skeleton: false,
                    prev_grounded: true,
                };
            },
            '1' => {
                game_state.grasses.push(
                    Grass {
                        transform,
                        sprite: SpriteComponent { texture_index: TEXTURE_GROUND, is_flipped: false },
                    },
                );
            },
            '2' => {
                game_state.skeleton_blocks.push(
                    SkeletonBlock {
                        transform,
                        sprite: SpriteComponent { texture_index: TEXTURE_BURIED, is_flipped: false },
                        buried: BuriedComponent { is_dug: false, is_released: false },
                    },
                );
            },
            '3' => {
                let teleporter = Teleporter {
                    transform,
                    sprite: SpriteComponent { texture_index: TEXTURE_TELEPORTER, is_flipped: false },
                };
                if game_state.teleporters[0].is_none() {
                    game_state.teleporters[0] = Some(teleporter);
                } else if game_state.teleporters[1].is_none() {
                    game_state.teleporters[1] = Some(teleporter);
                }
            },
            '4' => {
                game_state.exit = Exit {
                    transform,
                    sprite: SpriteComponent { texture_index: TEXTURE_EXIT, is_flipped: false },
                };
            },
            '5' => {
                game_state.grasses.push(
                    Grass {
                        transform,
                        sprite: SpriteComponent {
                            texture_index: TEXTURE_GROUND_BELOW,
                            is_flipped: false,
                        },
                    },
                );
            },
            _ => {},
        }
        if ch == '\n' {
            x = 0;
            y = y + 1;
        } else {
            x = x + 1;
        }
    }
}

} // verus!
