use gravedig::constantes::{GAME_BOUNDS_X, GAME_BOUNDS_Y, MAX_CLOUDS, MIN_CLOUDS};
use gravedig::cue::{Cue, Effect};
use gravedig::entities::ai::{AiComponent, AiState};
use gravedig::entities::cloud;
use gravedig::entities::foilage::{
    generate, plant, Foilage, FoilageGate, FoilageRoll, FoilageType, Grass, PlantRoll,
};
use gravedig::entities::player::{Player, PlayerInputIntent};
use gravedig::entities::skeleton::{BuriedComponent, Skeleton, SkeletonBlock};
use gravedig::map::load_map;
use gravedig::sound_collection::SoundCollection;
use gravedig::sprite::SpriteComponent;
use gravedig::states::game_state::GameState;
use gravedig::transform_compontent::{any_at, find_at, Position, TransformComponent};

fn at(x: i32, y: i32) -> TransformComponent {
    TransformComponent { position: Position { x, y } }
}

fn grass(x: i32, y: i32, texture_index: usize) -> Grass {
    Grass { transform: at(x, y), sprite: SpriteComponent { texture_index, is_flipped: false } }
}

fn walker(x: i32, y: i32) -> Skeleton {
    Skeleton {
        transform: at(x, y),
        sprite: SpriteComponent { texture_index: 4, is_flipped: false },
        ai: AiComponent { state: AiState::Walk, turn_taken: false },
    }
}

fn player_at(x: i32, y: i32) -> Player {
    let mut player = Player::default();
    player.transform.position = Position { x, y };
    player
}

#[test]
fn bounds_are_ten_by_eight() {
    assert_eq!(GAME_BOUNDS_X, 9);
    assert_eq!(GAME_BOUNDS_Y, 7);
}

#[test]
fn dead_player_never_steps() {
    let mut player = player_at(0, 0);
    player.is_alive = false;
    player.input_intent = PlayerInputIntent::Left;
    let before = player;
    let check = player.should_step(true, &vec![grass(0, 1, 1)], &vec![], &vec![]);
    assert!(!check.step);
    assert!(check.cues.is_empty());
    assert_eq!(player, before);
}

#[test]
fn pending_move_on_the_ground_steps_at_once() {
    let mut player = player_at(0, 0);
    player.input_intent = PlayerInputIntent::Right;
    let check = player.should_step(false, &vec![grass(0, 1, 1)], &vec![], &vec![]);
    assert!(check.step);
    assert!(check.cues.is_empty());
    assert!(!player.is_on_skeleton);
}

#[test]
fn pending_move_in_the_air_waits_for_the_timer() {
    let mut player = player_at(0, 0);
    player.input_intent = PlayerInputIntent::Right;
    assert!(!player.should_step(false, &vec![], &vec![], &vec![]).step);
    assert!(player.should_step(true, &vec![], &vec![], &vec![]).step);
}

#[test]
fn idle_player_on_the_ground_does_not_step() {
    let mut player = player_at(0, 0);
    let check = player.should_step(true, &vec![grass(0, 1, 10)], &vec![], &vec![]);
    assert!(!check.step);
    assert!(check.cues.is_empty());
}

#[test]
fn landing_is_cued_once() {
    let mut player = player_at(0, 0);
    player.prev_grounded = false;
    player.sprite.texture_index = 13;
    let blocks = vec![SkeletonBlock {
        transform: at(0, 1),
        sprite: SpriteComponent { texture_index: 3, is_flipped: false },
        buried: BuriedComponent { is_dug: false, is_released: false },
    }];
    let check = player.should_step(true, &vec![], &vec![], &blocks);
    assert!(!check.step);
    assert_eq!(check.cues, vec![Cue::Sound(8), Cue::Emit(Effect::Landing, 15)]);
    assert!(player.prev_grounded);
    assert_eq!(player.sprite.texture_index, 0);

    let check = player.should_step(true, &vec![], &vec![], &blocks);
    assert!(!check.step);
    assert!(check.cues.is_empty());
}

#[test]
fn landing_waits_for_the_timer() {
    let mut player = player_at(0, 0);
    player.prev_grounded = false;
    let check = player.should_step(false, &vec![grass(0, 1, 1)], &vec![], &vec![]);
    assert!(!check.step);
    assert!(check.cues.is_empty());
    assert!(!player.prev_grounded);
}

#[test]
fn standing_on_a_skeleton_is_noticed() {
    let mut player = player_at(3, 3);
    let check = player.should_step(false, &vec![], &vec![walker(3, 4)], &vec![]);
    assert!(!check.step);
    assert!(player.is_on_skeleton);
    player.should_step(false, &vec![grass(3, 4, 1)], &vec![walker(4, 4)], &vec![]);
    assert!(!player.is_on_skeleton);
}

#[test]
fn swipes_become_moves() {
    assert_eq!(PlayerInputIntent::from_swipe(false, true, true, true), PlayerInputIntent::Idle);
    assert_eq!(PlayerInputIntent::from_swipe(true, true, true, false), PlayerInputIntent::Right);
    assert_eq!(PlayerInputIntent::from_swipe(true, true, false, true), PlayerInputIntent::Left);
    assert_eq!(PlayerInputIntent::from_swipe(true, false, true, true), PlayerInputIntent::Down);
    assert_eq!(PlayerInputIntent::from_swipe(true, false, true, false), PlayerInputIntent::Up);
    assert_eq!(PlayerInputIntent::default(), PlayerInputIntent::Idle);
}

#[test]
fn sound_switch_gates_the_effects() {
    let mut sounds = SoundCollection { is_on: true };
    assert_eq!(sounds.play(0), Some(0));
    assert_eq!(sounds.play(9), Some(9));
    assert_eq!(sounds.play(10), None);
    assert_eq!(sounds.button_texture(), 11);
    sounds.toggle();
    assert_eq!(sounds.button_texture(), 12);
    assert_eq!(sounds.play(3), None);
    sounds.toggle();
    assert_eq!(sounds.play(3), Some(3));
}

#[test]
fn lookups_by_offset() {
    let tiles = vec![grass(2, 2, 1), grass(3, 2, 1), grass(2, 2, 10)];
    let origin = Position { x: 2, y: 1 };
    assert!(any_at(&tiles, &origin, 0, 1));
    assert!(any_at(&tiles, &origin, 1, 1));
    assert!(!any_at(&tiles, &origin, -1, 1));
    assert_eq!(find_at(&tiles, &origin, 0, 1), Some(0));
    assert_eq!(find_at(&tiles, &origin, 1, 1), Some(1));
    assert_eq!(find_at(&tiles, &origin, 0, 0), None);
    let edge = Position { x: i32::MAX, y: i32::MIN };
    assert!(!any_at(&tiles, &edge, 1, -1));
    assert!(Position::new(2, 2).is_offset_of(&origin, 0, 1));
}

#[test]
fn third_teleporter_is_ignored() {
    let mut state = GameState::new();
    load_map(&mut state, "3\n.3\n..3");
    assert_eq!(state.teleporters[0].unwrap().transform.position, Position { x: 0, y: 0 });
    assert_eq!(state.teleporters[1].unwrap().transform.position, Position { x: 1, y: 1 });
    assert_eq!(state.teleporters[0].unwrap().sprite.texture_index, 5);
}

#[test]
fn map_characters_and_their_entities() {
    let mut state = GameState::new();
    load_map(&mut state, "x5\n40\né1");
    assert_eq!(state.grasses, vec![grass(1, 0, 10), grass(1, 2, 1)]);
    assert_eq!(state.exit.transform.position, Position { x: 0, y: 1 });
    assert_eq!(state.exit.sprite.texture_index, 6);
    assert_eq!(state.player.transform.position, Position { x: 1, y: 1 });
    assert!(state.skeletons.is_empty());
}

#[test]
fn loading_adds_to_what_is_there() {
    let mut state = GameState::new();
    load_map(&mut state, "1");
    state.player.is_alive = false;
    load_map(&mut state, ".1");
    assert_eq!(state.grasses, vec![grass(0, 0, 1), grass(1, 0, 1)]);
    assert!(!state.player.is_alive);
    load_map(&mut state, "\n0");
    assert!(state.player.is_alive);
    assert_eq!(state.player.transform.position, Position { x: 0, y: 1 });
}

fn straw(texture: usize, flipped: bool) -> PlantRoll {
    PlantRoll { is_bush: false, straw_texture: texture, is_flipped: flipped }
}

#[test]
fn planting_follows_the_rolls() {
    let mut state = GameState::new();
    state.grasses = vec![grass(0, 5, 1), grass(1, 5, 10), grass(2, 5, 1), grass(3, 5, 1)];
    let bush = PlantRoll { is_bush: true, straw_texture: 15, is_flipped: false };
    let rolls = vec![
        FoilageRoll { spawns: true, twice: true, first: straw(15, true), second: bush },
        FoilageRoll { spawns: true, twice: true, first: bush, second: bush },
        FoilageRoll { spawns: false, twice: true, first: bush, second: bush },
        FoilageRoll { spawns: true, twice: false, first: straw(16, false), second: bush },
    ];
    plant(&mut state, &rolls);
    assert_eq!(
        state.foilages,
        vec![
            Foilage {
                pos_i32: Position { x: 0, y: 5 },
                slot: 1,
                sprite: SpriteComponent { texture_index: 15, is_flipped: true },
                foilage_type: FoilageType::Straw,
            },
            Foilage {
                pos_i32: Position { x: 0, y: 5 },
                slot: 2,
                sprite: SpriteComponent { texture_index: 17, is_flipped: false },
                foilage_type: FoilageType::Bush,
            },
            Foilage {
                pos_i32: Position { x: 3, y: 5 },
                slot: 1,
                sprite: SpriteComponent { texture_index: 16, is_flipped: false },
                foilage_type: FoilageType::Straw,
            },
        ]
    );
    assert_eq!(Foilage::from_roll(Position { x: 0, y: 5 }, 2, bush), state.foilages[1]);
}

#[test]
fn planting_without_rolls_grows_nothing() {
    let mut state = GameState::new();
    state.grasses = vec![grass(0, 5, 1)];
    plant(&mut state, &vec![]);
    assert!(state.foilages.is_empty());
}

#[test]
fn generated_plants_fit_their_gates() {
    let mut state = GameState::new();
    let mut gates = Vec::new();
    for x in 0..60 {
        state.grasses.push(grass(x, 5, if x % 5 == 4 { 10 } else { 1 }));
        gates.push(FoilageGate {
            spawns: x % 3 != 0,
            first_is_bush: x % 2 == 0,
            second_is_bush: x % 4 == 1,
        });
    }
    generate(&mut state, &gates);
    let mut singles = 0;
    let mut pairs = 0;
    let mut straw_textures = Vec::new();
    let mut flips = Vec::new();
    for x in 0..60 {
        let here: Vec<&Foilage> =
            state.foilages.iter().filter(|f| f.pos_i32 == Position { x, y: 5 }).collect();
        if x % 5 == 4 || x % 3 == 0 {
            assert!(here.is_empty());
            continue;
        }
        assert!(here.len() == 1 || here.len() == 2);
        if here.len() == 1 {
            singles += 1;
        } else {
            pairs += 1;
        }
        for (k, plant) in here.iter().enumerate() {
            assert_eq!(plant.slot, k + 1);
            let is_bush = if k == 0 { x % 2 == 0 } else { x % 4 == 1 };
            if is_bush {
                assert_eq!(plant.foilage_type, FoilageType::Bush);
                assert_eq!(plant.sprite.texture_index, 17);
            } else {
                assert_eq!(plant.foilage_type, FoilageType::Straw);
                assert!(14 <= plant.sprite.texture_index && plant.sprite.texture_index <= 16);
                straw_textures.push(plant.sprite.texture_index);
            }
            flips.push(plant.sprite.is_flipped);
        }
    }
    // The rolls are rolls: over this many tiles every outcome comes up.
    assert!(singles > 0 && pairs > 0);
    assert!(straw_textures.contains(&14));
    assert!(straw_textures.contains(&15));
    assert!(straw_textures.contains(&16));
    assert!(flips.contains(&true) && flips.contains(&false));
}

#[test]
fn new_plants_are_what_was_asked_for() {
    let mut textures = Vec::new();
    for _ in 0..40 {
        let plant = Foilage::new(Position { x: 4, y: 2 }, 1, false);
        assert_eq!(plant.pos_i32, Position { x: 4, y: 2 });
        assert_eq!(plant.slot, 1);
        assert_eq!(plant.foilage_type, FoilageType::Straw);
        assert!(14 <= plant.sprite.texture_index && plant.sprite.texture_index <= 16);
        textures.push(plant.sprite.texture_index);
        let bush = Foilage::new(Position { x: 4, y: 2 }, 2, true);
        assert_eq!(bush.foilage_type, FoilageType::Bush);
        assert_eq!(bush.sprite.texture_index, 17);
    }
    assert!(textures.iter().any(|t| *t != 14));
}

#[test]
fn cloud_rolls_stay_in_range_and_vary() {
    let mut amounts = Vec::new();
    let mut textures = Vec::new();
    for _ in 0..200 {
        let amount = cloud::spawn();
        assert!(MIN_CLOUDS <= amount && amount <= MAX_CLOUDS);
        amounts.push(amount);
        let texture = cloud::roll_texture();
        assert!(18 <= texture && texture <= 20);
        textures.push(texture);
    }
    assert!(amounts.iter().any(|a| *a != MIN_CLOUDS));
    assert!(amounts.contains(&MAX_CLOUDS));
    assert!(textures.contains(&18) && textures.contains(&19) && textures.contains(&20));
}
