//! Grid coordinate mapping: round trips, bounds, and area queries.

use trapify::tile_map::{
    x_from_absolute, x_into_absolute_mid, x_max, x_min, y_from_absolute, y_into_absolute_mid,
    y_max, y_min, Grid, TileMapPos, COLUMNS, ROWS, TILE_SIZE,
};

fn camera() -> Grid {
    // a camera showing the playfield centred: top-left at (-15, 3.5) units
    Grid::new(-15_000_000, 3_500_000)
}

#[test]
fn playfield_bounds_from_anchor() {
    let g = camera();
    assert_eq!(x_min(&g), -14_000_000);
    assert_eq!(x_max(&g), 14_000_000);
    assert_eq!(y_max(&g), 2_500_000);
    assert_eq!(y_min(&g), -2_500_000);
    assert_eq!(TILE_SIZE, 1_000_000);
    assert_eq!(COLUMNS, 28);
    assert_eq!(ROWS, 5);
}

#[test]
fn grid_round_trip_every_tile() {
    let g = camera();
    for x in 0..COLUMNS {
        for y in 0..ROWS {
            let tile = TileMapPos::new(x, y);
            let mid_x = x_into_absolute_mid(&g, x);
            let mid_y = y_into_absolute_mid(&g, y);
            assert_eq!(TileMapPos::from_absolute(&g, mid_x, mid_y), Some(tile));
        }
    }
}

#[test]
fn grid_round_trip_survives_camera_motion() {
    // the anchor moves between frames; the mapping must follow it
    let moved = Grid::new(-12_345_678, 4_321_000);
    for x in [0, 13, COLUMNS - 1] {
        for y in [0, ROWS - 1] {
            let tile = TileMapPos::new(x, y);
            let mid_x = x_into_absolute_mid(&moved, x);
            let mid_y = y_into_absolute_mid(&moved, y);
            assert_eq!(TileMapPos::from_absolute(&moved, mid_x, mid_y), Some(tile));
        }
    }
}

#[test]
fn tile_lookup_outside_bounds_is_absent() {
    let g = camera();
    let mid_y = y_into_absolute_mid(&g, 2);
    assert_eq!(x_from_absolute(&g, x_min(&g) - 1), None);
    assert_eq!(x_from_absolute(&g, x_max(&g)), None);
    assert_eq!(y_from_absolute(&g, y_min(&g) - 1), None);
    assert_eq!(y_from_absolute(&g, y_min(&g) + 5_000_000), None);
    assert_eq!(TileMapPos::from_absolute(&g, x_max(&g) + 10, mid_y), None);
    assert_eq!(TileMapPos::from_absolute(&g, x_min(&g), y_max(&g)), None);
}

#[test]
fn tile_lookup_at_edges() {
    let g = camera();
    assert_eq!(x_from_absolute(&g, x_min(&g)), Some(0));
    assert_eq!(x_from_absolute(&g, x_max(&g) - 1), Some(COLUMNS - 1));
    assert_eq!(y_from_absolute(&g, y_min(&g)), Some(0));
    assert_eq!(y_from_absolute(&g, y_min(&g) + 5_000_000 - 1), Some(ROWS - 1));
}

#[test]
fn area_of_radius_zero_is_the_tile_itself() {
    let tiles = TileMapPos::new(10, 2).area_til_distance(0);
    assert_eq!(tiles.len(), 1);
    assert!(tiles.contains(&TileMapPos::new(10, 2)));
}

#[test]
fn area_is_clipped_at_the_corner() {
    let tiles = TileMapPos::new(0, 0).area_til_distance(1);
    assert_eq!(tiles.len(), 4);
    for t in [(0, 0), (0, 1), (1, 0), (1, 1)] {
        assert!(tiles.contains(&TileMapPos::new(t.0, t.1)));
    }
}

#[test]
fn area_in_the_middle_is_a_full_square() {
    let tiles = TileMapPos::new(10, 2).area_til_distance(1);
    assert_eq!(tiles.len(), 9);
    for dx in -1i64..=1 {
        for dy in -1i64..=1 {
            assert!(tiles.contains(&TileMapPos::new((10 + dx) as u32, (2 + dy) as u32)));
        }
    }
}

#[test]
fn area_at_far_corner_with_large_radius() {
    let tiles = TileMapPos::new(27, 4).area_til_distance(2);
    assert_eq!(tiles.len(), 9);
    for x in 25..=27 {
        for y in 2..=4 {
            assert!(tiles.contains(&TileMapPos::new(x, y)));
        }
    }
}
