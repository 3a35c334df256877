use gravedig::cue::{Cue, Effect};
use gravedig::entities::ai::{AiComponent, AiState};
use gravedig::entities::foilage::Grass;
use gravedig::entities::player::{self, PlayerInputIntent};
use gravedig::entities::skeleton::{
    attack, block_system, reset_turns, system, walk, BuriedComponent, Skeleton, SkeletonBlock,
};
use gravedig::entities::teleporter::Teleporter;
use gravedig::sprite::SpriteComponent;
use gravedig::states::game_state::GameState;
use gravedig::states::main_state::{enemies_turn, restart_current_map};
use gravedig::transform_compontent::{Position, TransformComponent};

fn at(x: i32, y: i32) -> TransformComponent {
    TransformComponent { position: Position { x, y } }
}

fn skeleton(x: i32, y: i32, state: AiState) -> Skeleton {
    Skeleton {
        transform: at(x, y),
        sprite: SpriteComponent { texture_index: 4, is_flipped: false },
        ai: AiComponent { state, turn_taken: false },
    }
}

fn dug_block(x: i32, y: i32) -> SkeletonBlock {
    SkeletonBlock {
        transform: at(x, y),
        sprite: SpriteComponent { texture_index: 2, is_flipped: false },
        buried: BuriedComponent { is_dug: true, is_released: false },
    }
}

fn world_with_floor(y: i32) -> GameState {
    let mut state = GameState::new();
    for x in 0..10 {
        state.grasses.push(Grass {
            transform: at(x, y),
            sprite: SpriteComponent { texture_index: 1, is_flipped: false },
        });
    }
    state
}

#[test]
fn telegraphed_attack_hits_a_player_who_stayed() {
    let mut state = world_with_floor(4);
    state.player.transform.position = Position { x: 5, y: 3 };
    state.skeletons.push(skeleton(4, 3, AiState::Attack));
    let cues = attack(&mut state);
    assert!(!state.player.is_alive);
    assert_eq!(state.player.sprite.texture_index, 9);
    assert_eq!(state.skeletons[0].ai.state, AiState::Walk);
    assert_eq!(state.skeletons[0].sprite.texture_index, 4);
    assert!(state.skeletons[0].ai.turn_taken);
    assert_eq!(cues, vec![Cue::Sound(2), Cue::Emit(Effect::Blood, 20)]);
}

#[test]
fn telegraphed_attack_misses_a_player_who_moved_away() {
    let mut state = world_with_floor(4);
    state.player.transform.position = Position { x: 6, y: 3 };
    state.skeletons.push(skeleton(4, 3, AiState::Attack));
    let cues = attack(&mut state);
    assert!(state.player.is_alive);
    assert_eq!(state.skeletons[0].ai.state, AiState::Walk);
    assert_eq!(state.skeletons[0].transform.position, Position { x: 4, y: 3 });
    assert!(state.skeletons[0].ai.turn_taken);
    assert!(cues.is_empty());
}

#[test]
fn attack_then_miss_over_two_turns() {
    let mut state = world_with_floor(4);
    state.player.transform.position = Position { x: 6, y: 3 };
    state.skeletons.push(skeleton(4, 3, AiState::Walk));
    let mut current_map = 0;

    // The skeleton closes in, then telegraphs.
    let cues = system(&mut state);
    assert!(cues.is_empty());
    assert_eq!(state.skeletons[0].transform.position, Position { x: 5, y: 3 });
    let cues = system(&mut state);
    assert_eq!(cues, vec![Cue::Sound(5)]);
    assert_eq!(state.skeletons[0].ai.state, AiState::Attack);
    assert_eq!(state.skeletons[0].sprite.texture_index, 7);
    assert_eq!(state.skeletons[0].transform.position, Position { x: 5, y: 3 });

    // The player steps away before the attack resolves.
    state.player.input_intent = PlayerInputIntent::Right;
    player::system(&mut state, &mut current_map);
    assert_eq!(state.player.transform.position, Position { x: 7, y: 3 });
    let cues = system(&mut state);
    assert!(cues.is_empty());
    assert!(state.player.is_alive);
    assert_eq!(state.skeletons[0].ai.state, AiState::Walk);
    assert_eq!(state.skeletons[0].transform.position, Position { x: 5, y: 3 });
    assert!(!state.skeletons[0].ai.turn_taken);
}

#[test]
fn skeleton_in_the_air_falls_and_wraps() {
    let mut state = GameState::new();
    state.player.transform.position = Position { x: 0, y: 3 };
    state.skeletons.push(skeleton(12, 7, AiState::Walk));
    let cues = walk(&mut state);
    assert_eq!(state.skeletons[0].transform.position, Position { x: 9, y: 0 });
    assert_eq!(cues, vec![Cue::SkeletonWarped(0)]);
}

#[test]
fn skeleton_stays_while_player_stands_on_a_skeleton() {
    let mut state = world_with_floor(4);
    state.player.transform.position = Position { x: 8, y: 3 };
    state.player.is_on_skeleton = true;
    state.skeletons.push(skeleton(2, 3, AiState::Walk));
    walk(&mut state);
    assert_eq!(state.skeletons[0].transform.position, Position { x: 2, y: 3 });
    assert!(!state.skeletons[0].sprite.is_flipped);
}

#[test]
fn skeleton_with_turn_taken_sits_out_the_walk() {
    let mut state = world_with_floor(4);
    state.player.transform.position = Position { x: 8, y: 3 };
    let mut s = skeleton(2, 3, AiState::Walk);
    s.ai.turn_taken = true;
    state.skeletons.push(s);
    walk(&mut state);
    assert_eq!(state.skeletons[0].transform.position, Position { x: 2, y: 3 });
    reset_turns(&mut state);
    assert!(!state.skeletons[0].ai.turn_taken);
    walk(&mut state);
    assert_eq!(state.skeletons[0].transform.position, Position { x: 3, y: 3 });
}

#[test]
fn skeleton_faces_left_when_player_is_to_the_left() {
    let mut state = world_with_floor(4);
    state.player.transform.position = Position { x: 0, y: 3 };
    state.skeletons.push(skeleton(5, 3, AiState::Walk));
    walk(&mut state);
    assert_eq!(state.skeletons[0].transform.position, Position { x: 4, y: 3 });
    assert!(state.skeletons[0].sprite.is_flipped);
}

#[test]
fn dug_block_releases_once_when_cell_above_is_free() {
    let mut state = world_with_floor(4);
    state.player.transform.position = Position { x: 0, y: 3 };
    state.skeleton_blocks.push(dug_block(5, 3));
    let cues = block_system(&mut state);
    assert_eq!(cues, vec![Cue::Sound(5)]);
    assert!(state.skeleton_blocks[0].buried.is_released);
    assert_eq!(state.skeletons.len(), 1);
    assert_eq!(state.skeletons[0].transform.position, Position { x: 5, y: 2 });
    assert_eq!(state.skeletons[0].ai, AiComponent { state: AiState::Attack, turn_taken: false });
    assert_eq!(state.skeletons[0].sprite, SpriteComponent { texture_index: 7, is_flipped: true });

    let cues = block_system(&mut state);
    assert!(cues.is_empty());
    assert_eq!(state.skeletons.len(), 1);
}

#[test]
fn block_waits_while_player_stands_on_it() {
    let mut state = world_with_floor(4);
    state.player.transform.position = Position { x: 5, y: 2 };
    state.skeleton_blocks.push(dug_block(5, 3));
    let cues = block_system(&mut state);
    assert!(cues.is_empty());
    assert!(!state.skeleton_blocks[0].buried.is_released);
    assert!(state.skeletons.is_empty());
}

#[test]
fn buried_block_does_not_release() {
    let mut state = world_with_floor(4);
    state.player.transform.position = Position { x: 0, y: 3 };
    let mut b = dug_block(5, 3);
    b.buried.is_dug = false;
    state.skeleton_blocks.push(b);
    assert!(block_system(&mut state).is_empty());
    assert!(state.skeletons.is_empty());
}

#[test]
fn two_blocks_on_one_cell_release_one_skeleton() {
    let mut state = world_with_floor(4);
    state.player.transform.position = Position { x: 9, y: 3 };
    state.skeleton_blocks.push(dug_block(5, 3));
    state.skeleton_blocks.push(dug_block(5, 3));
    let cues = block_system(&mut state);
    assert_eq!(cues, vec![Cue::Sound(5)]);
    assert!(state.skeleton_blocks[0].buried.is_released);
    assert!(!state.skeleton_blocks[1].buried.is_released);
    assert_eq!(state.skeletons.len(), 1);
    assert!(!state.skeletons[0].sprite.is_flipped);
}

#[test]
fn teleporting_onto_a_skeleton_makes_it_telegraph() {
    let mut state = world_with_floor(3);
    state.teleporters[0] =
        Some(Teleporter { transform: at(1, 2), sprite: SpriteComponent::default() });
    state.teleporters[1] =
        Some(Teleporter { transform: at(7, 2), sprite: SpriteComponent::default() });
    state.exit.transform.position = Position { x: 5, y: 5 };
    state.player.transform.position = Position { x: 1, y: 2 };
    state.skeletons.push(skeleton(7, 2, AiState::Walk));
    state.player.input_intent = PlayerInputIntent::Up;
    let mut current_map = 0;
    player::system(&mut state, &mut current_map);
    assert_eq!(state.player.transform.position, Position { x: 7, y: 2 });
    assert_eq!(state.skeletons[0].ai.state, AiState::Attack);
    assert_eq!(state.skeletons[0].sprite.texture_index, 4);
}

#[test]
fn turn_at_rest_changes_nothing_twice() {
    let mut state = world_with_floor(4);
    state.player.transform.position = Position { x: 2, y: 3 };
    // A skeleton walled in by ground on the player's side.
    state.grasses.push(Grass {
        transform: at(6, 3),
        sprite: SpriteComponent { texture_index: 1, is_flipped: false },
    });
    state.skeletons.push(skeleton(7, 3, AiState::Walk));
    let mut current_map = 0;

    let turn = player::system(&mut state, &mut current_map);
    assert!(turn.cues.is_empty());
    assert!(enemies_turn(&mut state).is_empty());
    let player_after_one = state.player;
    let skeletons_after_one = state.skeletons.clone();
    let blocks_after_one = state.skeleton_blocks.clone();

    let turn = player::system(&mut state, &mut current_map);
    assert!(turn.cues.is_empty());
    assert!(enemies_turn(&mut state).is_empty());
    assert_eq!(state.player, player_after_one);
    assert_eq!(state.skeletons, skeletons_after_one);
    assert_eq!(state.skeleton_blocks, blocks_after_one);
    assert_eq!(state.skeletons[0].transform.position, Position { x: 7, y: 3 });
    assert!(state.skeletons[0].sprite.is_flipped);
}

#[test]
fn exit_is_locked_until_every_skeleton_is_out() {
    let mut state = world_with_floor(4);
    state.player.transform.position = Position { x: 2, y: 3 };
    state.exit.transform.position = Position { x: 2, y: 3 };
    let mut released = dug_block(4, 4);
    released.buried.is_released = true;
    state.skeleton_blocks.push(released);
    state.skeleton_blocks.push(dug_block(6, 4));
    state.player.input_intent = PlayerInputIntent::Up;
    let mut current_map = 3;
    let turn = player::system(&mut state, &mut current_map);
    assert_eq!(turn.cues, vec![Cue::Sound(6), Cue::BlockLocked(1)]);
    assert!(!turn.load_map);
    assert_eq!(current_map, 3);
    assert_eq!(state.grasses.len(), 10);
}

#[test]
fn exit_ends_the_level_and_asks_for_the_next_map() {
    let mut state = world_with_floor(4);
    state.player.transform.position = Position { x: 2, y: 3 };
    state.exit.transform.position = Position { x: 2, y: 3 };
    state.player.input_intent = PlayerInputIntent::Up;
    let mut current_map = 3;
    let turn = player::system(&mut state, &mut current_map);
    assert_eq!(turn.cues, vec![Cue::Sound(4)]);
    assert!(turn.load_map);
    assert_eq!(current_map, 4);
    assert!(state.grasses.is_empty());
    assert!(!state.is_all_levels_completed);
    assert_eq!(state.player.input_intent, PlayerInputIntent::Idle);
}

#[test]
fn exit_of_the_last_level_completes_the_game() {
    let mut state = world_with_floor(4);
    state.player.transform.position = Position { x: 2, y: 3 };
    state.exit.transform.position = Position { x: 2, y: 3 };
    state.player.input_intent = PlayerInputIntent::Up;
    let mut current_map = 26;
    let turn = player::system(&mut state, &mut current_map);
    assert!(!turn.load_map);
    assert_eq!(current_map, 27);
    assert!(state.is_all_levels_completed);

    let cue = restart_current_map(&mut state, &mut current_map);
    assert_eq!(cue, Cue::Sound(9));
    assert_eq!(current_map, 0);
    assert!(!state.is_all_levels_completed);
}

#[test]
fn restart_keeps_the_level_while_the_game_goes_on() {
    let mut state = world_with_floor(4);
    let mut current_map = 5;
    restart_current_map(&mut state, &mut current_map);
    assert_eq!(current_map, 5);
    assert!(state.grasses.is_empty());
}
