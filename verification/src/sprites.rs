//! Routines specific to the sprites: mapping abstract tile (terrain) values
//! to the sprite codes drawn by clients.

use vstd::prelude::*;

verus! {

/// Terrain value of a water tile.
pub const WATER_TILE_VALUE: u8 = 0;

/// Terrain value of the first sand variant.
pub const FIRST_SAND_TILE_VALUE: u8 = 1;

/// Terrain value of the second sand variant.
pub const SECOND_SAND_TILE_VALUE: u8 = 2;

/// Terrain value of a tree tile.
pub const TREE_TILE_VALUE: u8 = 3;

/// Sprite code of a water tile.
pub const WATER_SPRITE_INDEX: u8 = 10;

/// Sprite code shared by both sand variants.
pub const SAND_SPRITE_INDEX: u8 = 0;

/// Sprite code of a tree tile.
pub const TREE_SPRITE_INDEX: u8 = 8;

/// The fixed 4-entry table from terrain values to sprite codes:
/// water to the water sprite, both sand variants to the one sand sprite,
/// tree to the tree sprite.
pub open spec fn spec_sprite_index_from_tile_value(tile_value: u8) -> u8
    recommends
        tile_value <= TREE_TILE_VALUE,
{
    if tile_value == WATER_TILE_VALUE {
        WATER_SPRITE_INDEX
    } else if tile_value == FIRST_SAND_TILE_VALUE || tile_value == SECOND_SAND_TILE_VALUE {
        SAND_SPRITE_INDEX
    } else {
        TREE_SPRITE_INDEX
    }
}

/// Returns the sprite code drawn for a given terrain value. A terrain value
/// outside the four defined kinds is an internal invariant violation, so it
/// is excluded here rather than aborting at run time.
pub fn get_sprite_index_from_tile_value(tile_value: u8) -> (sprite: u8)
    requires
        tile_value <= TREE_TILE_VALUE,
    ensures
        sprite == spec_sprite_index_from_tile_value(tile_value),
{
    match tile_value {
        WATER_TILE_VALUE => WATER_SPRITE_INDEX,
        FIRST_SAND_TILE_VALUE | SECOND_SAND_TILE_VALUE => SAND_SPRITE_INDEX,
        _ => TREE_SPRITE_INDEX,
    }
}

} // verus!
