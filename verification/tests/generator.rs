use treasure_island_server::sprites::get_sprite_index_from_tile_value;
use treasure_island_server::tiles::generate_terrain;
use treasure_island_server::tiles::generate_terrain_from_draws;
use treasure_island_server::tiles::load_tiles;
use treasure_island_server::tiles::load_tiles_from_draws;
use treasure_island_server::tiles::tiles_from_terrain;
use treasure_island_server::tiles::CORNER_WATER_SPRITE_INDEX;
use treasure_island_server::tiles::SAND_WATER_BOTTOM_SPRITE_INDEX;
use treasure_island_server::tiles::SAND_WATER_LEFT_SPRITE_INDEX;
use treasure_island_server::tiles::SAND_WATER_RIGHT_SPRITE_INDEX;
use treasure_island_server::tiles::SAND_WATER_TOP_SPRITE_INDEX;

fn is_interior(index: usize) -> bool {
    index >= 20 && index < 380 && index % 20 != 0 && index % 20 != 19
}

fn is_corner(index: usize) -> bool {
    index == 0 || index == 19 || index == 380 || index == 399
}

#[test]
fn sprite_table_is_the_fixed_four_entry_table() {
    assert_eq!(get_sprite_index_from_tile_value(0), 10);
    assert_eq!(get_sprite_index_from_tile_value(1), 0);
    assert_eq!(get_sprite_index_from_tile_value(2), 0);
    assert_eq!(get_sprite_index_from_tile_value(3), 8);
}

#[test]
fn corners_hold_the_corner_water_sprite() {
    let tiles = load_tiles();
    assert_eq!(tiles.len(), 400);
    assert_eq!(tiles[0], CORNER_WATER_SPRITE_INDEX);
    assert_eq!(tiles[19], CORNER_WATER_SPRITE_INDEX);
    assert_eq!(tiles[380], CORNER_WATER_SPRITE_INDEX);
    assert_eq!(tiles[399], CORNER_WATER_SPRITE_INDEX);
}

#[test]
fn non_corner_border_cells_hold_their_designated_sprites() {
    let tiles = load_tiles();
    for index in 0..400 {
        if is_corner(index) || is_interior(index) {
            continue;
        }
        let expected = if index < 20 {
            SAND_WATER_LEFT_SPRITE_INDEX
        } else if index % 20 == 0 {
            SAND_WATER_TOP_SPRITE_INDEX
        } else if index % 20 == 19 {
            SAND_WATER_RIGHT_SPRITE_INDEX
        } else {
            SAND_WATER_BOTTOM_SPRITE_INDEX
        };
        assert_eq!(tiles[index], expected, "border cell {}", index);
    }
}

#[test]
fn interior_terrain_stays_within_one_step_of_its_predecessor() {
    let terrain = generate_terrain();
    assert_eq!(terrain.len(), 400);
    for index in 0..400 {
        if !is_interior(index) {
            continue;
        }
        let value = terrain[index];
        assert!(value <= 3, "cell {} out of range: {}", index, value);
        if index == 21 {
            continue;
        }
        let previous = if index < 41 { terrain[index - 1] } else { terrain[index - 20] };
        let minimum = if previous == 0 { 0 } else { previous - 1 };
        let maximum = if previous == 3 { 3 } else { previous + 1 };
        assert!(
            minimum <= value && value <= maximum,
            "cell {}: {} not within [{},{}]",
            index,
            value,
            minimum,
            maximum
        );
    }
}

#[test]
fn interior_sprites_come_from_the_terrain_through_the_table() {
    let terrain = generate_terrain();
    let tiles = tiles_from_terrain(&terrain);
    for index in 0..400 {
        if !is_interior(index) || is_corner(index) {
            continue;
        }
        assert_eq!(tiles[index], get_sprite_index_from_tile_value(terrain[index]));
    }
}

#[test]
fn all_minimum_draws_give_flat_water_everywhere() {
    let draws = vec![0u8; 400];
    let terrain = generate_terrain_from_draws(&draws);
    for index in 0..400 {
        if is_interior(index) {
            assert_eq!(terrain[index], 0, "cell {}", index);
        }
    }
    let tiles = load_tiles_from_draws(&draws);
    for index in 0..400 {
        if is_interior(index) && !is_corner(index) {
            assert_eq!(tiles[index], 10, "cell {}", index);
        }
    }
}

#[test]
fn minimum_draws_from_a_tree_seed_decay_one_step_per_cell() {
    let mut draws = vec![0u8; 400];
    draws[21] = 3;
    let terrain = generate_terrain_from_draws(&draws);
    // First interior row: the seed, then one step down per cell until water.
    assert_eq!(terrain[21], 3);
    assert_eq!(terrain[22], 2);
    assert_eq!(terrain[23], 1);
    assert_eq!(terrain[24], 0);
    for index in 25..39 {
        assert_eq!(terrain[index], 0, "cell {}", index);
    }
    // Later rows: one step below the cell one row up, saturating at water.
    assert_eq!(terrain[41], 2);
    assert_eq!(terrain[42], 1);
    assert_eq!(terrain[43], 0);
    assert_eq!(terrain[61], 1);
    assert_eq!(terrain[62], 0);
    assert_eq!(terrain[81], 0);
}

#[test]
fn all_maximum_draws_saturate_at_tree() {
    let draws = vec![255u8; 400];
    let terrain = generate_terrain_from_draws(&draws);
    for index in 0..400 {
        if is_interior(index) {
            assert_eq!(terrain[index], 3, "cell {}", index);
        }
    }
    let tiles = load_tiles_from_draws(&draws);
    for index in 0..400 {
        if is_interior(index) && !is_corner(index) {
            assert_eq!(tiles[index], 8, "cell {}", index);
        }
    }
}

#[test]
fn maximum_draws_from_a_water_seed_ratchet_up_to_tree() {
    let mut draws = vec![255u8; 400];
    draws[21] = 0;
    let terrain = generate_terrain_from_draws(&draws);
    // First interior row: one step up per cell until tree, then saturated.
    assert_eq!(terrain[21], 0);
    assert_eq!(terrain[22], 1);
    assert_eq!(terrain[23], 2);
    assert_eq!(terrain[24], 3);
    for index in 25..39 {
        assert_eq!(terrain[index], 3, "cell {}", index);
    }
    // The whole first interior row never steps down.
    for index in 22..39 {
        assert!(terrain[index] >= terrain[index - 1], "cell {}", index);
    }
    // Later rows ratchet from the cell one row up.
    assert_eq!(terrain[41], 1);
    assert_eq!(terrain[61], 2);
    assert_eq!(terrain[81], 3);
    assert_eq!(terrain[101], 3);
}

#[test]
fn replayed_generation_is_deterministic() {
    let mut draws = vec![0u8; 400];
    for index in 0..400 {
        draws[index] = (index % 7) as u8;
    }
    let first = load_tiles_from_draws(&draws);
    let second = load_tiles_from_draws(&draws);
    assert_eq!(first, second);
}
