use tilemap::error::TileError;
use tilemap::grid::TileGrid;
use tilemap::mesh::{build, build_colored, AtlasLayout, Color, Point, QuadColors};

fn layout16() -> AtlasLayout {
    AtlasLayout { tile_width: 16, tile_height: 16, tiles_per_row: 8 }
}

fn pt(x: u64, y: u64) -> Point {
    Point { x, y }
}

#[test]
fn single_cell_quad() {
    let g = TileGrid::new(1, 1, 0).unwrap();
    let v = build(&g, &layout16()).unwrap();
    assert_eq!(v.len(), 4);
    let positions: Vec<Point> = v.iter().map(|x| x.position).collect();
    let tex: Vec<Point> = v.iter().map(|x| x.tex_coords).collect();
    assert_eq!(positions, vec![pt(0, 0), pt(16, 0), pt(16, 16), pt(0, 16)]);
    assert_eq!(tex, vec![pt(0, 0), pt(16, 0), pt(16, 16), pt(0, 16)]);
}

#[test]
fn tile_nine_samples_second_atlas_row_and_column() {
    let g = TileGrid::new(1, 1, 9).unwrap();
    let v = build(&g, &layout16()).unwrap();
    assert_eq!(v[0].tex_coords, pt(16, 16));
    assert_eq!(v[2].tex_coords, pt(32, 32));
}

#[test]
fn zero_tiles_per_row_is_rejected() {
    let g = TileGrid::new(2, 2, 0).unwrap();
    let layout = AtlasLayout { tile_width: 16, tile_height: 16, tiles_per_row: 0 };
    assert_eq!(build(&g, &layout).err(), Some(TileError::InvalidAtlasLayout));
}

#[test]
fn mesh_has_four_vertices_per_cell_in_row_major_order() {
    let mut g = TileGrid::new(3, 2, 0).unwrap();
    g.set(1, 0, 1).unwrap();
    g.set(2, 1, 10).unwrap();
    let layout = AtlasLayout { tile_width: 8, tile_height: 4, tiles_per_row: 4 };
    let v = build(&g, &layout).unwrap();
    assert_eq!(v.len(), 4 * 3 * 2);
    for row in 0..2u64 {
        for col in 0..3u64 {
            let base = (4 * (row * 3 + col)) as usize;
            assert_eq!(v[base].position, pt(col * 8, row * 4));
            assert_eq!(v[base + 1].position, pt((col + 1) * 8, row * 4));
            assert_eq!(v[base + 2].position, pt((col + 1) * 8, (row + 1) * 4));
            assert_eq!(v[base + 3].position, pt(col * 8, (row + 1) * 4));
        }
    }
    // cell (1, 0) holds tile 1: atlas column 1, row 0
    assert_eq!(v[4].tex_coords, pt(8, 0));
    // cell (2, 1) holds tile 10: atlas column 2, row 2
    assert_eq!(v[20].tex_coords, pt(16, 8));
    assert_eq!(v[22].tex_coords, pt(24, 12));
}

#[test]
fn default_color_is_white() {
    let g = TileGrid::new(2, 1, 0).unwrap();
    let v = build(&g, &layout16()).unwrap();
    for x in v.iter() {
        assert_eq!(x.color, Color { r: 255, g: 255, b: 255 });
    }
}

#[test]
fn corner_colors_follow_winding() {
    let red = Color { r: 255, g: 0, b: 0 };
    let green = Color { r: 0, g: 255, b: 0 };
    let blue = Color { r: 0, g: 0, b: 255 };
    let black = Color { r: 0, g: 0, b: 0 };
    let colors = QuadColors { top_left: red, top_right: green, bottom_right: blue, bottom_left: black };
    let g = TileGrid::new(1, 2, 0).unwrap();
    let v = build_colored(&g, &layout16(), &colors).unwrap();
    let got: Vec<Color> = v.iter().map(|x| x.color).collect();
    assert_eq!(got, vec![red, green, blue, black, red, green, blue, black]);
    assert_eq!(QuadColors::uniform(red).bottom_left, red);
    assert_eq!(Color::white(), Color { r: 255, g: 255, b: 255 });
}

#[test]
fn large_coordinates_do_not_wrap() {
    let g = TileGrid::new(1, 1, u32::MAX).unwrap();
    let layout = AtlasLayout { tile_width: u32::MAX, tile_height: u32::MAX, tiles_per_row: 1 };
    let v = build(&g, &layout).unwrap();
    let m = u32::MAX as u64;
    assert_eq!(v[2].tex_coords, pt(m, (m + 1) * m));
}
