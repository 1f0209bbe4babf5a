//! The tile routines: the procedural generator of the fixed 20 by 20 map.
//!
//! The grid is a 400-cell row-major array of sprite codes. Border cells get
//! fixed shore sprites chosen by position; interior cells get a terrain value
//! drawn within one step of a predecessor cell (the left neighbour on the
//! first interior row, the cell one row up elsewhere) and mapped to a sprite
//! code; a post-pass forces the four corners to one corner-water sprite.

use vstd::prelude::*;

use rand::Rng;

use crate::sprites::get_sprite_index_from_tile_value;
use crate::sprites::spec_sprite_index_from_tile_value;
use crate::sprites::SAND_SPRITE_INDEX;
use crate::sprites::TREE_SPRITE_INDEX;
use crate::sprites::TREE_TILE_VALUE;
use crate::sprites::WATER_SPRITE_INDEX;
use crate::sprites::WATER_TILE_VALUE;

verus! {

/// Number of cells in the grid.
pub const TILES_AMOUNT: usize = 400;

/// Number of cells per row.
pub const TILES_PER_LINE: usize = 20;

/// Index of the first cell of the last row.
pub const LAST_LINE_FIRST_TILE_INDEX: usize = 380;

/// Index of the first interior (island) cell.
pub const FIRST_ISLAND_TILE_INDEX: usize = 21;

/// Index of the first cell of the second interior row; from there on the
/// predecessor of an interior cell is the cell one row up, not the left
/// neighbour.
pub const SECOND_LINE_OF_ISLAND_TILES_FIRST_INDEX: usize = 41;

/// Sprite code of the bottom shore border (last row).
pub const SAND_WATER_BOTTOM_SPRITE_INDEX: u8 = 4;

/// Sprite code of the top shore border (first column).
pub const SAND_WATER_TOP_SPRITE_INDEX: u8 = 5;

/// Sprite code of the left shore border (first row).
pub const SAND_WATER_LEFT_SPRITE_INDEX: u8 = 6;

/// Sprite code of the right shore border (last column).
pub const SAND_WATER_RIGHT_SPRITE_INDEX: u8 = 7;

/// Sprite code forced onto the four grid corners by the post-pass.
pub const CORNER_WATER_SPRITE_INDEX: u8 = 9;

/// The four corner cells of the grid.
pub open spec fn is_corner(i: int) -> bool {
    i == 0 || i == 19 || i == 380 || i == 399
}

/// An interior (island) cell: not in the first or last row and not in the
/// first or last column.
pub open spec fn is_interior(i: int) -> bool {
    20 <= i < 380 && i % 20 != 0 && i % 20 != 19
}

/// The border sprite of a non-interior cell, by the priority order of the
/// border rules: first row, then first column, then last column, then last
/// row.
pub open spec fn spec_border_sprite(i: int) -> u8
    recommends
        0 <= i < 400,
        !is_interior(i),
{
    if i < 20 {
        SAND_WATER_LEFT_SPRITE_INDEX
    } else if i % 20 == 0 {
        SAND_WATER_TOP_SPRITE_INDEX
    } else if i % 20 == 19 {
        SAND_WATER_RIGHT_SPRITE_INDEX
    } else {
        SAND_WATER_BOTTOM_SPRITE_INDEX
    }
}

/// The cell whose terrain value bounds the draw at interior cell `i`: the
/// left neighbour on the first interior row, the cell one row up afterwards.
pub open spec fn previous_tile_index(i: int) -> int
    recommends
        is_interior(i),
        i != FIRST_ISLAND_TILE_INDEX,
{
    if i < SECOND_LINE_OF_ISLAND_TILES_FIRST_INDEX {
        i - 1
    } else {
        i - 20
    }
}

/// Lower bound of the terrain draw after a predecessor value: one below it,
/// saturating at water.
pub open spec fn minimum_tile_value(previous: u8) -> u8
    recommends
        previous <= TREE_TILE_VALUE,
{
    if previous == WATER_TILE_VALUE {
        WATER_TILE_VALUE
    } else {
        (previous - 1) as u8
    }
}

/// Upper bound of the terrain draw after a predecessor value: one above it,
/// saturating at tree.
pub open spec fn maximum_tile_value(previous: u8) -> u8
    recommends
        previous <= TREE_TILE_VALUE,
{
    if previous == TREE_TILE_VALUE {
        TREE_TILE_VALUE
    } else {
        (previous + 1) as u8
    }
}

/// An interior cell of a terrain sequence obeys the generator's bounding
/// rule: its value is a defined terrain kind, and, except at the very first
/// interior cell, lies within one step of its predecessor's value.
pub open spec fn terrain_cell_ok(terrain: Seq<u8>, i: int) -> bool
    recommends
        terrain.len() == TILES_AMOUNT,
        is_interior(i),
{
    &&& terrain[i] <= TREE_TILE_VALUE
    &&& i != FIRST_ISLAND_TILE_INDEX ==> {
        let previous = terrain[previous_tile_index(i)];
        minimum_tile_value(previous) <= terrain[i] <= maximum_tile_value(previous)
    }
}

/// A well-formed terrain sequence: one value per cell, every interior cell
/// obeying the bounding rule.
pub open spec fn terrain_wf(terrain: Seq<u8>) -> bool {
    &&& terrain.len() == TILES_AMOUNT
    &&& forall|i: int| is_interior(i) ==> #[trigger] terrain_cell_ok(terrain, i)
}

/// The sprite of cell `i` before the corner post-pass: a border sprite on
/// the border, the mapped terrain sprite inside.
pub open spec fn spec_raw_tile_sprite(terrain: Seq<u8>, i: int) -> u8
    recommends
        terrain.len() == TILES_AMOUNT,
        0 <= i < 400,
{
    if is_interior(i) {
        spec_sprite_index_from_tile_value(terrain[i])
    } else {
        spec_border_sprite(i)
    }
}

/// The sprite of cell `i` of the finished grid: the corner-water sprite on
/// the four corners, otherwise the border or mapped terrain sprite.
pub open spec fn spec_tile_sprite(terrain: Seq<u8>, i: int) -> u8
    recommends
        terrain.len() == TILES_AMOUNT,
        0 <= i < 400,
{
    if is_corner(i) {
        CORNER_WATER_SPRITE_INDEX
    } else {
        spec_raw_tile_sprite(terrain, i)
    }
}

/// The grid is exactly the cell-by-cell sprite mapping of the given terrain.
pub open spec fn grid_matches_terrain(grid: Seq<u8>, terrain: Seq<u8>) -> bool {
    &&& grid.len() == TILES_AMOUNT
    &&& terrain.len() == TILES_AMOUNT
    &&& forall|i: int| 0 <= i < 400 ==> #[trigger] grid[i] == spec_tile_sprite(terrain, i)
}

/// A well-formed generated grid: the sprite mapping of some well-formed
/// terrain.
pub open spec fn grid_wf(grid: Seq<u8>) -> bool {
    exists|terrain: Seq<u8>| terrain_wf(terrain) && #[trigger] grid_matches_terrain(grid, terrain)
}

/// Law: in every well-formed grid the four corners hold the corner-water
/// sprite, every other border cell holds its designated border sprite and no
/// interior rule overwrites it, and every interior cell holds one of the
/// three terrain sprites.
pub proof fn lemma_grid_wf_cells(grid: Seq<u8>, i: int)
    requires
        grid_wf(grid),
        0 <= i < 400,
    ensures
        grid.len() == TILES_AMOUNT,
        is_corner(i) ==> grid[i] == CORNER_WATER_SPRITE_INDEX,
        !is_corner(i) && !is_interior(i) ==> grid[i] == spec_border_sprite(i),
        is_interior(i) ==> grid[i] == WATER_SPRITE_INDEX || grid[i] == SAND_SPRITE_INDEX
            || grid[i] == TREE_SPRITE_INDEX,
{
    let terrain = choose|terrain: Seq<u8>|
        terrain_wf(terrain) && #[trigger] grid_matches_terrain(grid, terrain);
    assert(grid[i] == spec_tile_sprite(terrain, i));
    if is_interior(i) {
        assert(terrain_cell_ok(terrain, i));
    }
}

/// Relies on rand::thread_rng and rand::Rng::gen_range: for a non-empty
/// integer range the draw lies inside it; gen_range panics only on an empty
/// range, which the precondition excludes.
#[verifier::external_body]
fn random_tile_value_between(minimum: u8, maximum: u8) -> (value: u8)
    requires
        minimum <= maximum,
        maximum <= TREE_TILE_VALUE,
    ensures
        minimum <= value <= maximum,
{
    rand::thread_rng().gen_range(minimum..maximum + 1)
}

/// Whether cell `index` is an interior (island) cell.
fn is_interior_tile(index: usize) -> (interior: bool)
    ensures
        interior == is_interior(index as int),
{
    index >= TILES_PER_LINE && index < LAST_LINE_FIRST_TILE_INDEX && index % TILES_PER_LINE != 0
        && index % TILES_PER_LINE != TILES_PER_LINE - 1
}

/// Draws the terrain of a fresh map: one value per cell (border cells get
/// water as a placeholder), the first interior cell drawn freely among the
/// four terrain kinds, every later interior cell drawn within one step of
/// its predecessor.
pub fn generate_terrain() -> (terrain: Vec<u8>)
    ensures
        terrain_wf(terrain@),
{
    let mut terrain: Vec<u8> = Vec::new();
    let mut index: usize = 0;
    while index < TILES_AMOUNT
        invariant
            index <= TILES_AMOUNT,
            terrain@.len() == index,
            forall|j: int| 0 <= j < index && is_interior(j) ==> #[trigger] terrain_cell_ok(
                terrain@,
                j,
            ),
        decreases TILES_AMOUNT - index,
    {
        let value: u8;
        if !is_interior_tile(index) {
            value = WATER_TILE_VALUE;
        } else if index == FIRST_ISLAND_TILE_INDEX {
            value = random_tile_value_between(WATER_TILE_VALUE, TREE_TILE_VALUE);
        } else {
            let previous_index: usize = if index
                < SECOND_LINE_OF_ISLAND_TILES_FIRST_INDEX {
                index - 1
            } else {
                index - TILES_PER_LINE
            };
            proof {
                assert(is_interior(previous_index as int));
                assert(terrain_cell_ok(terrain@, previous_index as int));
            }
            let previous = terrain[previous_index];
            let minimum = if previous == WATER_TILE_VALUE {
                WATER_TILE_VALUE
            } else {
                previous - 1
            };
            let maximum = if previous == TREE_TILE_VALUE {
                TREE_TILE_VALUE
            } else {
                previous + 1
            };
            value = random_tile_value_between(minimum, maximum);
        }
        let ghost old_terrain = terrain@;
        terrain.push(value);
        proof {
            assert forall|j: int| 0 <= j < index + 1 && is_interior(j) implies #[trigger]
                terrain_cell_ok(terrain@, j) by {
                if j < index {
                    assert(terrain_cell_ok(old_terrain, j));
                }
            }
        }
        index = index + 1;
    }
    terrain
}

/// The value clamped into the inclusive band between the two bounds: the
/// draw a replayed generation makes at a cell whose raw draw value is given.
pub open spec fn clamped_tile_value(draw: u8, minimum: u8, maximum: u8) -> u8
    recommends
        minimum <= maximum,
{
    if draw < minimum {
        minimum
    } else if draw > maximum {
        maximum
    } else {
        draw
    }
}

/// The terrain value a replayed generation puts at cell `i`, as a function
/// of the raw draw values alone: each raw draw is clamped into the band the
/// bounding rule allows at its cell.
pub open spec fn terrain_value_from_draws(draws: Seq<u8>, i: int) -> u8
    recommends
        draws.len() == TILES_AMOUNT,
        0 <= i < 400,
    decreases i,
{
    if !is_interior(i) {
        WATER_TILE_VALUE
    } else if i == FIRST_ISLAND_TILE_INDEX {
        clamped_tile_value(draws[i], WATER_TILE_VALUE, TREE_TILE_VALUE)
    } else {
        let previous = terrain_value_from_draws(draws, previous_tile_index(i));
        clamped_tile_value(draws[i], minimum_tile_value(previous), maximum_tile_value(previous))
    }
}

/// Law: a replayed terrain value is always a defined terrain kind.
pub proof fn lemma_terrain_value_from_draws_in_range(draws: Seq<u8>, i: int)
    requires
        draws.len() == TILES_AMOUNT,
        0 <= i < 400,
    ensures
        terrain_value_from_draws(draws, i) <= TREE_TILE_VALUE,
    decreases i,
{
    if is_interior(i) && i != FIRST_ISLAND_TILE_INDEX {
        lemma_terrain_value_from_draws_in_range(draws, previous_tile_index(i));
    }
}

/// The whole terrain a replayed generation produces from raw draw values.
pub open spec fn spec_terrain_from_draws(draws: Seq<u8>) -> Seq<u8> {
    Seq::new(TILES_AMOUNT as nat, |i: int| terrain_value_from_draws(draws, i))
}

/// Replays the terrain generation with the given raw draw values in place
/// of the random draws, one per cell: deterministic, and exactly the spec
/// replay.
pub fn generate_terrain_from_draws(draws: &Vec<u8>) -> (terrain: Vec<u8>)
    requires
        draws@.len() == TILES_AMOUNT,
    ensures
        terrain@ == spec_terrain_from_draws(draws@),
        terrain_wf(terrain@),
{
    let mut terrain: Vec<u8> = Vec::new();
    let mut index: usize = 0;
    while index < TILES_AMOUNT
        invariant
            index <= TILES_AMOUNT,
            draws@.len() == TILES_AMOUNT,
            terrain@.len() == index,
            forall|j: int| 0 <= j < index ==> #[trigger] terrain@[j] == terrain_value_from_draws(
                draws@,
                j,
            ),
        decreases TILES_AMOUNT - index,
    {
        let value: u8;
        if !is_interior_tile(index) {
            value = WATER_TILE_VALUE;
        } else {
            let minimum: u8;
            let maximum: u8;
            if index == FIRST_ISLAND_TILE_INDEX {
                minimum = WATER_TILE_VALUE;
                maximum = TREE_TILE_VALUE;
            } else {
                let previous_index: usize = if index
                    < SECOND_LINE_OF_ISLAND_TILES_FIRST_INDEX {
                    index - 1
                } else {
                    index - TILES_PER_LINE
                };
                proof {
                    assert(is_interior(previous_index as int));
                    lemma_terrain_value_from_draws_in_range(draws@, previous_index as int);
                }
                let previous = terrain[previous_index];
                minimum = if previous == WATER_TILE_VALUE {
                    WATER_TILE_VALUE
                } else {
                    previous - 1
                };
                maximum = if previous == TREE_TILE_VALUE {
                    TREE_TILE_VALUE
                } else {
                    previous + 1
                };
            }
            let draw = draws[index];
            value = if draw < minimum {
                minimum
            } else if draw > maximum {
                maximum
            } else {
                draw
            };
        }
        terrain.push(value);
        index = index + 1;
    }
    proof {
        assert(terrain@ =~= spec_terrain_from_draws(draws@));
        assert forall|i: int| is_interior(i) implies #[trigger] terrain_cell_ok(terrain@, i) by {
            lemma_terrain_value_from_draws_in_range(draws@, i);
            if i != FIRST_ISLAND_TILE_INDEX {
                lemma_terrain_value_from_draws_in_range(draws@, previous_tile_index(i));
            }
        }
    }
    terrain
}

/// Maps a terrain to the finished grid: border sprites on the border,
/// terrain sprites inside, then the post-pass forcing the four corners to
/// the corner-water sprite.
pub fn tiles_from_terrain(terrain: &Vec<u8>) -> (tiles: Vec<u8>)
    requires
        terrain@.len() == TILES_AMOUNT,
        forall|i: int| is_interior(i) ==> (#[trigger] terrain@[i]) <= TREE_TILE_VALUE,
    ensures
        grid_matches_terrain(tiles@, terrain@),
{
    let mut tiles: Vec<u8> = Vec::new();
    let mut index: usize = 0;
    while index < TILES_AMOUNT
        invariant
            index <= TILES_AMOUNT,
            terrain@.len() == TILES_AMOUNT,
            forall|i: int| is_interior(i) ==> (#[trigger] terrain@[i]) <= TREE_TILE_VALUE,
            tiles@.len() == index,
            forall|j: int| 0 <= j < index ==> #[trigger] tiles@[j] == spec_raw_tile_sprite(
                terrain@,
                j,
            ),
        decreases TILES_AMOUNT - index,
    {
        if index < TILES_PER_LINE {
            tiles.push(SAND_WATER_LEFT_SPRITE_INDEX);
        } else if index % TILES_PER_LINE == 0 {
            tiles.push(SAND_WATER_TOP_SPRITE_INDEX);
        } else if index % TILES_PER_LINE == TILES_PER_LINE - 1 {
            tiles.push(SAND_WATER_RIGHT_SPRITE_INDEX);
        } else if index >= LAST_LINE_FIRST_TILE_INDEX {
            tiles.push(SAND_WATER_BOTTOM_SPRITE_INDEX);
        } else {
            tiles.push(get_sprite_index_from_tile_value(terrain[index]));
        }
        index = index + 1;
    }
    tiles.set(0, CORNER_WATER_SPRITE_INDEX);
    tiles.set(19, CORNER_WATER_SPRITE_INDEX);
    tiles.set(380, CORNER_WATER_SPRITE_INDEX);
    tiles.set(399, CORNER_WATER_SPRITE_INDEX);
    proof {
        assert forall|i: int| 0 <= i < 400 implies #[trigger] tiles@[i] == spec_tile_sprite(
            terrain@,
            i,
        ) by {}
    }
    tiles
}

/// Loads all tiles of a fresh map randomly: draws the terrain, maps it to
/// sprites, and forces the corners.
pub fn load_tiles() -> (tiles: Vec<u8>)
    ensures
        tiles@.len() == TILES_AMOUNT,
        grid_wf(tiles@),
{
    let terrain = generate_terrain();
    proof {
        assert forall|i: int| is_interior(i) implies (#[trigger] terrain@[i])
            <= TREE_TILE_VALUE by {
            assert(terrain_cell_ok(terrain@, i));
        }
    }
    let tiles = tiles_from_terrain(&terrain);
    proof {
        assert(terrain_wf(terrain@) && grid_matches_terrain(tiles@, terrain@));
    }
    tiles
}

/// Loads the tiles of a map replayed from the given raw draw values, one
/// per cell: the deterministic counterpart of `load_tiles`.
pub fn load_tiles_from_draws(draws: &Vec<u8>) -> (tiles: Vec<u8>)
    requires
        draws@.len() == TILES_AMOUNT,
    ensures
        tiles@.len() == TILES_AMOUNT,
        grid_matches_terrain(tiles@, spec_terrain_from_draws(draws@)),
        grid_wf(tiles@),
{
    let terrain = generate_terrain_from_draws(draws);
    proof {
        assert forall|i: int| is_interior(i) implies (#[trigger] terrain@[i])
            <= TREE_TILE_VALUE by {
            assert(terrain_cell_ok(terrain@, i));
        }
    }
    let tiles = tiles_from_terrain(&terrain);
    proof {
        assert(terrain_wf(terrain@) && grid_matches_terrain(tiles@, terrain@));
    }
    tiles
}

} // verus!
