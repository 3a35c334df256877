//! Portals and the way out.

use vstd::prelude::*;
use crate::sprite::SpriteComponent;
use crate::transform_compontent::{Position, TransformComponent};

verus! {

/// One end of the portal pair.
#[derive(Clone, Copy, Debug, PartialEq, Eq, Structural)]
pub struct Teleporter {
    pub transform: TransformComponent,
    pub sprite: SpriteComponent,
}

impl Default for Teleporter {
    fn default() -> (t: Teleporter)
        ensures
            t.transform.position == (Position { x: 0, y: 0 }),
            t.sprite == (SpriteComponent { texture_index: 0, is_flipped: false }),
    {
        Teleporter {
            transform: TransformComponent { position: Position { x: 0, y: 0 } },
            sprite: SpriteComponent { texture_index: 0, is_flipped: false },
        }
    }
}

/// The door that ends a level once every buried skeleton is out.
#[derive(Clone, Copy, Debug, PartialEq, Eq, Structural)]
pub struct Exit {
    pub transform: TransformComponent,
    pub sprite: SpriteComponent,
}

impl Default for Exit {
    fn default() -> (e: Exit)
        ensures
            e.transform.position == (Position { x: 0, y: 0 }),
            e.sprite == (SpriteComponent { texture_index: 0, is_flipped: false }),
    {
        Exit {
            transform: TransformComponent { position: Position { x: 0, y: 0 } },
            sprite: SpriteComponent { texture_index: 0, is_flipped: false },
        }
    }
}

} // verus!
