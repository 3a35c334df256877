use gravedig::cue::{Cue, Effect};
use gravedig::entities::ai::{AiComponent, AiState};
use gravedig::entities::foilage::{Foilage, FoilageType, Grass};
use gravedig::entities::player::{self, PlayerInputIntent};
use gravedig::entities::skeleton::{
    self, in_bounds, BuriedComponent, Skeleton, SkeletonBlock,
};
use gravedig::entities::teleporter::Teleporter;
use gravedig::map::{clear_map, get_map_name, load_map, MAP_COUNT};
use gravedig::sprite::SpriteComponent;
use gravedig::states::game_state::GameState;
use gravedig::transform_compontent::{Position, TransformComponent};

fn at(x: i32, y: i32) -> TransformComponent {
    TransformComponent { position: Position { x, y } }
}

fn grass(x: i32, y: i32) -> Grass {
    Grass { transform: at(x, y), sprite: SpriteComponent { texture_index: 1, is_flipped: false } }
}

fn walker(x: i32, y: i32) -> Skeleton {
    Skeleton {
        transform: at(x, y),
        sprite: SpriteComponent { texture_index: 4, is_flipped: false },
        ai: AiComponent { state: AiState::Walk, turn_taken: false },
    }
}

fn block(x: i32, y: i32) -> SkeletonBlock {
    SkeletonBlock {
        transform: at(x, y),
        sprite: SpriteComponent { texture_index: 3, is_flipped: false },
        buried: BuriedComponent { is_dug: false, is_released: false },
    }
}

fn floor(state: &mut GameState, y: i32) {
    for x in 0..10 {
        state.grasses.push(grass(x, y));
    }
}

#[test]
fn in_bounds_clamps_columns_and_wraps_rows() {
    let mut p = Position { x: -3, y: 8 };
    assert!(in_bounds(&mut p));
    assert_eq!(p, Position { x: 0, y: 0 });

    let mut q = Position { x: 12, y: 7 };
    assert!(!in_bounds(&mut q));
    assert_eq!(q, Position { x: 9, y: 7 });

    let mut r = Position { x: 4, y: -2 };
    assert!(!in_bounds(&mut r));
    assert_eq!(r, Position { x: 4, y: -2 });
}

#[test]
fn map_names_follow_the_level_list() {
    assert_eq!(MAP_COUNT, 27);
    assert_eq!(get_map_name(0), "/maps/map_first.txt");
    assert_eq!(get_map_name(11), "maps/map_fall_trap.txt");
    assert_eq!(get_map_name(26), "/maps/map_hard2.txt");
}

#[test]
fn example_map_places_entities() {
    let mut state = GameState::new();
    load_map(&mut state, "012\n1.1\n111");
    assert_eq!(state.player.transform.position, Position { x: 0, y: 0 });
    assert!(state.player.is_alive);
    let cells: Vec<Position> = state.grasses.iter().map(|g| g.transform.position).collect();
    assert_eq!(
        cells,
        vec![
            Position { x: 1, y: 0 },
            Position { x: 0, y: 1 },
            Position { x: 2, y: 1 },
            Position { x: 0, y: 2 },
            Position { x: 1, y: 2 },
            Position { x: 2, y: 2 },
        ]
    );
    assert_eq!(state.skeleton_blocks.len(), 1);
    assert_eq!(state.skeleton_blocks[0].transform.position, Position { x: 2, y: 0 });
    assert_eq!(state.skeleton_blocks[0].sprite.texture_index, 3);
    assert!(state.teleporters[0].is_none());
    assert!(state.teleporters[1].is_none());
}

#[test]
fn dig_without_block_below_changes_no_block() {
    let mut state = GameState::new();
    load_map(&mut state, "0.2\n1.1\n111");
    let blocks_before = state.skeleton_blocks.clone();
    state.player.input_intent = PlayerInputIntent::Down;
    let mut current_map = 0;
    let turn = player::system(&mut state, &mut current_map);
    assert_eq!(state.skeleton_blocks, blocks_before);
    assert!(!state.skeleton_blocks[0].buried.is_dug);
    assert_eq!(turn.cues, vec![Cue::Emit(Effect::Dust, 20), Cue::Sound(1)]);
    assert_eq!(state.player.sprite.texture_index, 8);
    assert_eq!(state.player.input_intent, PlayerInputIntent::Idle);
    assert!(!turn.load_map);
}

#[test]
fn dig_opens_the_block_below_and_uproots_the_plant() {
    let mut state = GameState::new();
    load_map(&mut state, "0\n2");
    state.foilages.push(Foilage {
        pos_i32: Position { x: 0, y: 1 },
        slot: 1,
        sprite: SpriteComponent { texture_index: 16, is_flipped: false },
        foilage_type: FoilageType::Straw,
    });
    state.player.input_intent = PlayerInputIntent::Down;
    let mut current_map = 0;
    let turn = player::system(&mut state, &mut current_map);
    assert!(state.skeleton_blocks[0].buried.is_dug);
    assert_eq!(state.skeleton_blocks[0].sprite.texture_index, 2);
    assert!(state.foilages.is_empty());
    assert_eq!(
        turn.cues,
        vec![
            Cue::Emit(Effect::Dust, 20),
            Cue::Sound(1),
            Cue::FoilageUprooted(0),
            Cue::Emit(Effect::Foilage(3), 1),
        ]
    );
}

#[test]
fn two_skeletons_one_target_first_in_list_wins() {
    let mut state = GameState::new();
    floor(&mut state, 4);
    state.player.transform.position = Position { x: 3, y: 0 };
    state.skeletons.push(walker(2, 3));
    state.skeletons.push(walker(4, 3));
    let cues = skeleton::walk(&mut state);
    assert_eq!(state.skeletons[0].transform.position, Position { x: 3, y: 3 });
    assert_eq!(state.skeletons[1].transform.position, Position { x: 4, y: 3 });
    assert!(!state.skeletons[0].sprite.is_flipped);
    assert!(state.skeletons[1].sprite.is_flipped);
    assert!(cues.is_empty());
}

#[test]
fn player_falls_and_wraps_to_the_top() {
    let mut state = GameState::new();
    state.player.transform.position = Position { x: 4, y: 7 };
    state.player.input_intent = PlayerInputIntent::Left;
    let mut current_map = 0;
    let turn = player::system(&mut state, &mut current_map);
    assert_eq!(state.player.transform.position, Position { x: 4, y: 0 });
    assert_eq!(turn.cues, vec![Cue::Sound(7), Cue::PlayerWarped]);
    assert_eq!(state.player.sprite.texture_index, 13);
    assert_eq!(state.player.input_intent, PlayerInputIntent::Left);
    assert!(!state.player.prev_grounded);
}

#[test]
fn player_is_clamped_at_the_walls() {
    let mut state = GameState::new();
    floor(&mut state, 1);
    state.player.transform.position = Position { x: 0, y: 0 };
    state.player.input_intent = PlayerInputIntent::Left;
    let mut current_map = 0;
    let turn = player::system(&mut state, &mut current_map);
    assert_eq!(state.player.transform.position, Position { x: 0, y: 0 });
    assert!(state.player.sprite.is_flipped);
    assert_eq!(turn.cues, vec![Cue::Sound(0), Cue::Emit(Effect::StepLeft, 9)]);

    state.player.transform.position = Position { x: 9, y: 0 };
    state.player.input_intent = PlayerInputIntent::Right;
    let turn = player::system(&mut state, &mut current_map);
    assert_eq!(state.player.transform.position, Position { x: 9, y: 0 });
    assert!(!state.player.sprite.is_flipped);
    assert_eq!(turn.cues, vec![Cue::Sound(0), Cue::Emit(Effect::StepRight, 8)]);
}

#[test]
fn teleporter_round_trip_returns_to_the_start() {
    let mut state = GameState::new();
    floor(&mut state, 3);
    state.teleporters[0] = Some(Teleporter {
        transform: at(1, 2),
        sprite: SpriteComponent { texture_index: 5, is_flipped: false },
    });
    state.teleporters[1] = Some(Teleporter {
        transform: at(7, 2),
        sprite: SpriteComponent { texture_index: 5, is_flipped: false },
    });
    state.exit.transform.position = Position { x: 5, y: 5 };
    state.player.transform.position = Position { x: 1, y: 2 };
    let mut current_map = 0;

    state.player.input_intent = PlayerInputIntent::Up;
    let turn = player::system(&mut state, &mut current_map);
    assert_eq!(state.player.transform.position, Position { x: 7, y: 2 });
    assert_eq!(turn.cues, vec![Cue::Sound(3), Cue::PlayerTeleported(1)]);

    state.player.input_intent = PlayerInputIntent::Up;
    let turn = player::system(&mut state, &mut current_map);
    assert_eq!(state.player.transform.position, Position { x: 1, y: 2 });
    assert_eq!(turn.cues, vec![Cue::Sound(3), Cue::PlayerTeleported(0)]);
}

#[test]
fn skeleton_block_lifecycle() {
    let mut b = block(2, 2);
    assert!(!b.try_release());
    assert!(!b.buried.is_released);
    b.dig();
    assert!(b.buried.is_dug);
    assert_eq!(b.sprite.texture_index, 2);
    assert!(b.try_release());
    assert!(b.buried.is_released);
    assert!(!b.try_release());
    assert!(b.buried.is_released);
}

#[test]
fn clear_map_keeps_player_and_exit() {
    let mut state = GameState::new();
    load_map(&mut state, "0123\n34");
    assert!(state.teleporters[0].is_some());
    assert!(state.teleporters[1].is_some());
    let exit = state.exit;
    let player = state.player;
    clear_map(&mut state);
    assert!(state.grasses.is_empty());
    assert!(state.skeleton_blocks.is_empty());
    assert!(state.skeletons.is_empty());
    assert!(state.foilages.is_empty());
    assert!(state.teleporters[0].is_none());
    assert!(state.teleporters[1].is_none());
    assert_eq!(state.exit, exit);
    assert_eq!(state.player, player);
}

#[test]
fn falling_player_keeps_falling_without_a_second_cue() {
    let mut state = GameState::new();
    state.player.transform.position = Position { x: 4, y: 2 };
    let mut current_map = 0;
    let turn = player::system(&mut state, &mut current_map);
    assert_eq!(state.player.transform.position, Position { x: 4, y: 3 });
    assert_eq!(turn.cues, vec![Cue::Sound(7)]);
    let turn = player::system(&mut state, &mut current_map);
    assert_eq!(state.player.transform.position, Position { x: 4, y: 4 });
    assert!(turn.cues.is_empty());
    assert_eq!(current_map, 0);
}

#[test]
fn blocked_step_turns_the_player_only() {
    let mut state = GameState::new();
    floor(&mut state, 1);
    state.grasses.push(grass(3, 0));
    state.skeletons.push(walker(5, 0));
    state.skeleton_blocks.push(block(7, 0));
    let mut current_map = 0;
    for (x, intent, flipped) in [
        (4, PlayerInputIntent::Left, true),
        (4, PlayerInputIntent::Right, false),
        (6, PlayerInputIntent::Right, false),
        (6, PlayerInputIntent::Left, true),
    ] {
        state.player.transform.position = Position { x, y: 0 };
        state.player.input_intent = intent;
        let turn = player::system(&mut state, &mut current_map);
        assert_eq!(state.player.transform.position, Position { x, y: 0 });
        assert_eq!(state.player.sprite.is_flipped, flipped);
        assert!(turn.cues.is_empty());
    }
}

#[test]
fn free_step_moves_one_column() {
    let mut state = GameState::new();
    floor(&mut state, 1);
    state.player.transform.position = Position { x: 4, y: 0 };
    state.player.input_intent = PlayerInputIntent::Right;
    let mut current_map = 0;
    player::system(&mut state, &mut current_map);
    assert_eq!(state.player.transform.position, Position { x: 5, y: 0 });
    state.player.input_intent = PlayerInputIntent::Left;
    player::system(&mut state, &mut current_map);
    player::system(&mut state, &mut current_map);
    assert_eq!(state.player.transform.position, Position { x: 4, y: 0 });
}

#[test]
fn player_outside_the_columns_is_pulled_in() {
    let mut state = GameState::new();
    state.grasses.push(grass(14, 1));
    state.player.transform.position = Position { x: 14, y: 0 };
    let mut current_map = 0;
    player::system(&mut state, &mut current_map);
    assert_eq!(state.player.transform.position, Position { x: 9, y: 0 });
}

#[test]
fn lone_teleporter_leads_nowhere() {
    let mut state = GameState::new();
    floor(&mut state, 3);
    state.teleporters[1] = Some(Teleporter {
        transform: at(1, 2),
        sprite: SpriteComponent { texture_index: 5, is_flipped: false },
    });
    state.exit.transform.position = Position { x: 5, y: 5 };
    state.player.transform.position = Position { x: 1, y: 2 };
    state.player.input_intent = PlayerInputIntent::Up;
    let mut current_map = 0;
    let turn = player::system(&mut state, &mut current_map);
    assert_eq!(state.player.transform.position, Position { x: 1, y: 2 });
    assert!(turn.cues.is_empty());
    assert_eq!(state.player.input_intent, PlayerInputIntent::Idle);
}

#[test]
fn each_plant_flies_off_as_its_own_effect() {
    for (texture_index, effect) in [(14, 1), (15, 2), (16, 3), (17, 4), (3, 1)] {
        let mut state = GameState::new();
        floor(&mut state, 1);
        state.foilages.push(Foilage {
            pos_i32: Position { x: 8, y: 1 },
            slot: 1,
            sprite: SpriteComponent { texture_index: 14, is_flipped: false },
            foilage_type: FoilageType::Straw,
        });
        state.foilages.push(Foilage {
            pos_i32: Position { x: 0, y: 1 },
            slot: 1,
            sprite: SpriteComponent { texture_index, is_flipped: false },
            foilage_type: FoilageType::Straw,
        });
        state.foilages.push(Foilage {
            pos_i32: Position { x: 0, y: 1 },
            slot: 2,
            sprite: SpriteComponent { texture_index: 17, is_flipped: false },
            foilage_type: FoilageType::Bush,
        });
        state.player.input_intent = PlayerInputIntent::Down;
        let mut current_map = 0;
        let turn = player::system(&mut state, &mut current_map);
        assert_eq!(
            turn.cues,
            vec![
                Cue::Emit(Effect::Dust, 20),
                Cue::Sound(1),
                Cue::FoilageUprooted(1),
                Cue::Emit(Effect::Foilage(effect), 1),
            ]
        );
        assert_eq!(state.foilages.len(), 2);
        assert_eq!(state.foilages[1].slot, 2);
    }
}

#[test]
fn defaults_match_a_fresh_game() {
    let state = GameState::new();
    assert_eq!(state.player.transform.position, Position { x: 0, y: 0 });
    assert!(state.player.is_alive);
    assert!(state.player.prev_grounded);
    assert!(!state.player.is_on_skeleton);
    assert_eq!(state.player.input_intent, PlayerInputIntent::Idle);
    assert!(!state.is_all_levels_completed);
    assert_eq!(Skeleton::default().ai, AiComponent { state: AiState::Attack, turn_taken: false });
    assert_eq!(SkeletonBlock::default().buried, BuriedComponent::default());
    assert_eq!(TransformComponent::default().position, Position { x: 0, y: 0 });
    assert_eq!(Grass::default().sprite, SpriteComponent::default());
    assert_eq!(Teleporter::default().transform, TransformComponent::default());
}
