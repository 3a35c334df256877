//! Ground tiles and the plants growing on them.

use vstd::prelude::*;
use crate::random::gen_range;
use crate::sprite::SpriteComponent;
use crate::states::game_state::{GameState, World};
use crate::transform_compontent::{Cell, Located, Position, TransformComponent};

verus! {

/// Texture of an ordinary ground tile, the only kind that grows plants.
pub const TEXTURE_GROUND: usize = 1;

/// Texture of the alternate ground tile; as solid as the ordinary one.
pub const TEXTURE_GROUND_BELOW: usize = 10;

/// A solid ground tile. It never changes once placed.
#[derive(Clone, Copy, Debug, PartialEq, Eq, Structural)]
pub struct Grass {
    pub transform: TransformComponent,
    pub sprite: SpriteComponent,
}

impl Default for Grass {
    fn default() -> (g: Grass)
        ensures
            g.transform.position == (Position { x: 0, y: 0 }),
            g.sprite == (SpriteComponent { texture_index: 0, is_flipped: false }),
    {
        Grass {
            transform: TransformComponent { position: Position { x: 0, y: 0 } },
            sprite: SpriteComponent { texture_index: 0, is_flipped: false },
        }
    }
}

/// The two kinds of plant: straws sway, bushes stretch.
#[derive(Clone, Copy, Debug, PartialEq, Eq, Structural)]
pub enum FoilageType {
    Straw,
    Bush,
}

/// A plant. `pos_i32` is the ground tile it grows on; `slot` counts the
/// sub-cell steps it is shifted to the right on that tile.
#[derive(Clone, Copy, Debug, PartialEq, Eq, Structural)]
pub struct Foilage {
    pub pos_i32: Position,
    pub slot: usize,
    pub sprite: SpriteComponent,
    pub foilage_type: FoilageType,
}

impl Located for Grass {
    open spec fn cell(&self) -> Cell {
        self.transform.position@
    }

    fn position(&self) -> (p: Position) {
        self.transform.position
    }
}

impl Located for Foilage {
    open spec fn cell(&self) -> Cell {
        self.pos_i32@
    }

    fn position(&self) -> (p: Position) {
        self.pos_i32
    }
}

/// Texture of the first of the three straw images; the others follow.
pub const TEXTURE_STRAW_FIRST: usize = 14;

/// Texture of the last of the three straw images.
pub const TEXTURE_STRAW_LAST: usize = 16;

/// Texture of the bush image.
pub const TEXTURE_BUSH: usize = 17;

/// The chance outcomes that shape one plant.
#[derive(Clone, Copy, Debug, PartialEq, Eq, Structural)]
pub struct PlantRoll {
    /// Whether the plant is a bush rather than a straw.
    pub is_bush: bool,
    /// The image of the plant if it is a straw.
    pub straw_texture: usize,
    /// Whether the plant is mirrored.
    pub is_flipped: bool,
}

/// The chance outcomes for one ground tile.
#[derive(Clone, Copy, Debug, PartialEq, Eq, Structural)]
pub struct FoilageRoll {
    /// Whether anything grows on the tile.
    pub spawns: bool,
    /// Whether two plants grow rather than one.
    pub twice: bool,
    pub first: PlantRoll,
    pub second: PlantRoll,
}

/// The outcomes for one ground tile that are drawn outside this crate:
/// whether anything grows, and for each of the two possible plants whether
/// it is a bush.
#[derive(Clone, Copy, Debug, PartialEq, Eq, Structural)]
pub struct FoilageGate {
    pub spawns: bool,
    pub first_is_bush: bool,
    pub second_is_bush: bool,
}

impl Foilage {
    /// The plant in sub-cell `slot` of the tile at `pos_i32` that `roll`
    /// gives: a bush shows the bush image, a straw the rolled one.
    pub open spec fn grown(pos_i32: Position, slot: usize, roll: PlantRoll) -> Foilage {
        Foilage {
            pos_i32,
            slot,
            sprite: SpriteComponent {
                texture_index: if roll.is_bush {
                    TEXTURE_BUSH
                } else {
                    roll.straw_texture
                },
                is_flipped: roll.is_flipped,
            },
            foilage_type: if roll.is_bush {
                FoilageType::Bush
            } else {
                FoilageType::Straw
            },
        }
    }

    /// The plant in sub-cell `slot` of the tile at `pos_i32` that `roll`
    /// gives.
    pub fn from_roll(pos_i32: Position, slot: usize, roll: PlantRoll) -> (foilage: Foilage)
        ensures
            foilage == Foilage::grown(pos_i32, slot, roll),
    {
        let foilage_type = if roll.is_bush {
            FoilageType::Bush
        } else {
            FoilageType::Straw
        };
        let texture_index = match foilage_type {
            FoilageType::Straw => roll.straw_texture,
            FoilageType::Bush => TEXTURE_BUSH,
        };
        Foilage {
            pos_i32,
            slot,
            sprite: SpriteComponent { texture_index, is_flipped: roll.is_flipped },
            foilage_type,
        }
    }

    /// A plant in sub-cell `slot` of the tile at `pos_i32`, a bush or a
    /// straw as asked, with a random straw image and a random facing.
    pub fn new(pos_i32: Position, slot: usize, is_bush: bool) -> (foilage: Foilage)
        ensures
            exists|roll: PlantRoll|
                roll.is_bush == is_bush && TEXTURE_STRAW_FIRST <= roll.straw_texture
                    <= TEXTURE_STRAW_LAST && foilage == #[trigger] Foilage::grown(pos_i32, slot, roll),
    {
        let roll = roll_plant(is_bush);
        Foilage::from_roll(pos_i32, slot, roll)
    }
}

/// Draws the random part of one plant.
fn roll_plant(is_bush: bool) -> (roll: PlantRoll)
    ensures
        roll.is_bush == is_bush,
        TEXTURE_STRAW_FIRST <= roll.straw_texture <= TEXTURE_STRAW_LAST,
{
    let straw_texture = if is_bush {
        TEXTURE_STRAW_FIRST
    } else {
        gen_range(14, 16 + 1) as usize
    };
    let is_flipped = gen_range(0, 2) == 0;
    PlantRoll { is_bush, straw_texture, is_flipped }
}

/// The plants that grow on `grass` for `roll`: none unless the tile is
/// ordinary ground and the roll lets it grow, else one or two, in sub-cells
/// 1 and 2.
pub open spec fn sprouts(grass: Grass, roll: FoilageRoll) -> Seq<Foilage> {
    if grass.sprite.texture_index != TEXTURE_GROUND || !roll.spawns {
        Seq::empty()
    } else if !roll.twice {
        seq![Foilage::grown(grass.transform.position, 1, roll.first)]
    } else {
        seq![
            Foilage::grown(grass.transform.position, 1, roll.first),
            Foilage::grown(grass.transform.position, 2, roll.second),
        ]
    }
}

/// The roll for ground tile number `i`; tiles beyond the rolls grow nothing.
pub open spec fn roll_for(rolls: Seq<FoilageRoll>, i: int) -> FoilageRoll {
    if 0 <= i < rolls.len() {
        rolls[i]
    } else {
        FoilageRoll {
            spawns: false,
            twice: false,
            first: PlantRoll { is_bush: false, straw_texture: TEXTURE_STRAW_FIRST, is_flipped: false },
            second: PlantRoll { is_bush: false, straw_texture: TEXTURE_STRAW_FIRST, is_flipped: false },
        }
    }
}

/// The plants that grow on the first `n` ground tiles, tile by tile.
pub open spec fn planted(grasses: Seq<Grass>, rolls: Seq<FoilageRoll>, n: int) -> Seq<Foilage>
    decreases n,
{
    if n <= 0 {
        Seq::empty()
    } else {
        planted(grasses, rolls, n - 1) + sprouts(grasses[n - 1], roll_for(rolls, n - 1))
    }
}

/// Whether `roll` is a roll that can come up for a tile with gate `gate`:
/// what grows is as `gate` says, and straw images are among the three straws.
pub open spec fn roll_fits(roll: FoilageRoll, gate: FoilageGate) -> bool {
    &&& roll.spawns == gate.spawns
    &&& roll.first.is_bush == gate.first_is_bush
    &&& roll.second.is_bush == gate.second_is_bush
    &&& TEXTURE_STRAW_FIRST <= roll.first.straw_texture <= TEXTURE_STRAW_LAST
    &&& TEXTURE_STRAW_FIRST <= roll.second.straw_texture <= TEXTURE_STRAW_LAST
}

/// Puts the plants that `roll` gives for `grass` behind `foilages`.
fn sprout(foilages: &mut Vec<Foilage>, grass: &Grass, roll: &FoilageRoll)
    ensures
        final(foilages)@ == old(foilages)@ + sprouts(*grass, *roll),
{
    if grass.sprite.texture_index != TEXTURE_GROUND || !roll.spawns {
        return;
    }
    foilages.push(Foilage::from_roll(grass.transform.position, 1, roll.first));
    if roll.twice {
        foilages.push(Foilage::from_roll(grass.transform.position, 2, roll.second));
    }
}

/// Grows plants on the ground tiles as `rolls` say, tile number `i` by
/// `rolls[i]`. Tiles beyond the rolls grow nothing.
pub fn plant(game_state: &mut GameState, rolls: &Vec<FoilageRoll>)
    ensures
        final(game_state)@.foilages == old(game_state)@.foilages + planted(
            old(game_state)@.grasses,
            rolls@,
            old(game_state)@.grasses.len() as int,
        ),
        final(game_state)@ == (World {
            foilages: final(game_state)@.foilages,
            ..old(game_state)@
        }),
{
    let ghost before = game_state@;
    let mut i: usize = 0;
    while i < game_state.grasses.len()
        invariant
            i <= game_state.grasses.len(),
            game_state@ == (World {
                foilages: game_state.foilages@,
                ..before
            }),
            game_state.foilages@ == before.foilages + planted(before.grasses, rolls@, i as int),
        decreases game_state.grasses.len() - i,
    {
        if i < rolls.len() {
            let grass = game_state.grasses[i];
            sprout(&mut game_state.foilages, &grass, &rolls[i]);
        }
        i += 1;
    }
}

/// Grows random plants on the ground tiles. `gates[i]` decides whether
/// anything grows on tile number `i` and which of its plants are bushes;
/// how many grow, which straw each shows and which way each faces is rolled
/// here. Tiles beyond the gates grow nothing.
pub fn generate(game_state: &mut GameState, gates: &Vec<FoilageGate>)
    ensures
        exists|rolls: Seq<FoilageRoll>|
            {
                &&& rolls.len() == gates@.len()
                &&& forall|i: int| 0 <= i < rolls.len() ==> roll_fits(#[trigger] rolls[i], gates@[i])
                &&& final(game_state)@.foilages == old(game_state)@.foilages + planted(
                    old(game_state)@.grasses,
                    rolls,
                    old(game_state)@.grasses.len() as int,
                )
            },
        final(game_state)@ == (World {
            foilages: final(game_state)@.foilages,
            ..old(game_state)@
        }),
{
    let mut rolls: Vec<FoilageRoll> = Vec::new();
    let mut i: usize = 0;
    while i < gates.len()
        invariant
            i <= gates.len(),
            rolls.len() == i,
            game_state@ == old(game_state)@,
            forall|j: int| 0 <= j < i ==> roll_fits(#[trigger] rolls@[j], gates@[j]),
        decreases gates.len() - i,
    {
        let gate = gates[i];
        let mut roll = FoilageRoll {
            spawns: gate.spawns,
            twice: false,
            first: PlantRoll {
                is_bush: gate.first_is_bush,
                straw_texture: TEXTURE_STRAW_FIRST,
                is_flipped: false,
            },
            second: PlantRoll {
                is_bush: gate.second_is_bush,
                straw_texture: TEXTURE_STRAW_FIRST,
                is_flipped: false,
            },
        };
        let is_fertile = i < game_state.grasses.len() && game_state.grasses[i].sprite.texture_index
            == TEXTURE_GROUND;
        if is_fertile && gate.spawns {
            roll.twice = gen_range(1, 2 + 1) == 2;
            roll.first = roll_plant(gate.first_is_bush);
            if roll.twice {
                roll.second = roll_plant(gate.second_is_bush);
            }
        }
        rolls.push(roll);
        i += 1;
    }
    plant(game_state, &rolls);
}

} // verus!
