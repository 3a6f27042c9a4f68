use tilemap::click::{apply_click, pixel_to_cell};
use tilemap::grid::TileGrid;
use tilemap::mesh::AtlasLayout;

fn layout16() -> AtlasLayout {
    AtlasLayout { tile_width: 16, tile_height: 16, tiles_per_row: 8 }
}

#[test]
fn pixel_to_cell_divides() {
    assert_eq!(pixel_to_cell(17, 5, 16, 16), (1, 0));
    assert_eq!(pixel_to_cell(0, 0, 16, 16), (0, 0));
    assert_eq!(pixel_to_cell(15, 16, 16, 16), (0, 1));
    assert_eq!(pixel_to_cell(100, 100, 10, 25), (10, 4));
}

#[test]
fn pixel_to_cell_negative_rounds_down() {
    assert_eq!(pixel_to_cell(-1, -16, 16, 16), (-1, -1));
    assert_eq!(pixel_to_cell(-17, -5, 16, 16), (-2, -1));
    assert_eq!(pixel_to_cell(i32::MIN, i32::MAX, 1, 1), (i32::MIN as i64, i32::MAX as i64));
}

#[test]
fn click_inside_sets_cell() {
    let mut g = TileGrid::new(4, 4, 1).unwrap();
    assert!(apply_click(&mut g, &layout16(), 17, 5, 3));
    assert_eq!(g.get(1, 0), Ok(3));
    assert_eq!(g.get(0, 0), Ok(1));
}

#[test]
fn click_outside_leaves_grid() {
    let mut g = TileGrid::new(2, 2, 1).unwrap();
    assert!(!apply_click(&mut g, &layout16(), 32, 0, 3));
    assert!(!apply_click(&mut g, &layout16(), 0, 40, 3));
    assert!(!apply_click(&mut g, &layout16(), -3, 4, 3));
    assert!(!apply_click(&mut g, &layout16(), 4, -1, 3));
    for row in 0..2 {
        for col in 0..2 {
            assert_eq!(g.get(col, row), Ok(1));
        }
    }
}
