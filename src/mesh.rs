use vstd::prelude::*;

use crate::error::TileError;
use crate::grid::TileGrid;

verus! {

/// An RGB color.
#[derive(Debug, Clone, Copy, PartialEq, Eq, Structural)]
pub struct Color {
    pub r: u8,
    pub g: u8,
    pub b: u8,
}

/// A point in pixel space.
#[derive(Debug, Clone, Copy, PartialEq, Eq, Structural)]
pub struct Point {
    pub x: u64,
    pub y: u64,
}

/// One corner of a quad: where it is drawn, its color, and the pixel of the
/// atlas texture that it samples.
#[derive(Debug, Clone, Copy, PartialEq, Eq, Structural)]
pub struct Vertex {
    pub position: Point,
    pub color: Color,
    pub tex_coords: Point,
}

/// How tile indices map to sub-rectangles of the atlas texture: tiles are
/// `tile_width` x `tile_height` pixels, `tiles_per_row` of them to a row.
#[derive(Debug, Clone, Copy, PartialEq, Eq, Structural)]
pub struct AtlasLayout {
    pub tile_width: u32,
    pub tile_height: u32,
    pub tiles_per_row: u32,
}

/// The colors given to the four corners of every quad.
#[derive(Debug, Clone, Copy, PartialEq, Eq, Structural)]
pub struct QuadColors {
    pub top_left: Color,
    pub top_right: Color,
    pub bottom_right: Color,
    pub bottom_left: Color,
}

impl Color {
    pub fn white() -> (c: Color)
        ensures
            c == (Color { r: 255, g: 255, b: 255 }),
    {
        Color { r: 255, g: 255, b: 255 }
    }
}

impl QuadColors {
    /// The same color on all four corners.
    pub fn uniform(c: Color) -> (q: QuadColors)
        ensures
            q == uniform_colors(c),
    {
        QuadColors { top_left: c, top_right: c, bottom_right: c, bottom_left: c }
    }
}

/// All four corners in the color `c`.
pub open spec fn uniform_colors(c: Color) -> QuadColors {
    QuadColors { top_left: c, top_right: c, bottom_right: c, bottom_left: c }
}

/// Horizontal offset, in tiles, of corner `k` (0 top-left, 1 top-right,
/// 2 bottom-right, 3 bottom-left).
pub open spec fn corner_dx(k: int) -> int {
    if k == 1 || k == 2 {
        1
    } else {
        0
    }
}

/// Vertical offset, in tiles, of corner `k`.
pub open spec fn corner_dy(k: int) -> int {
    if k == 2 || k == 3 {
        1
    } else {
        0
    }
}

pub open spec fn corner_color(colors: QuadColors, k: int) -> Color {
    if k == 0 {
        colors.top_left
    } else if k == 1 {
        colors.top_right
    } else if k == 2 {
        colors.bottom_right
    } else {
        colors.bottom_left
    }
}

/// Column of the atlas that holds `tile`.
pub open spec fn atlas_col(layout: AtlasLayout, tile: u32) -> int {
    tile as int % layout.tiles_per_row as int
}

/// Row of the atlas that holds `tile`.
pub open spec fn atlas_row(layout: AtlasLayout, tile: u32) -> int {
    tile as int / layout.tiles_per_row as int
}

/// Corner `k` of the quad drawn for the cell (col, row) holding `tile`.
pub open spec fn quad_vertex(
    layout: AtlasLayout,
    colors: QuadColors,
    col: int,
    row: int,
    tile: u32,
    k: int,
) -> Vertex {
    let tw = layout.tile_width as int;
    let th = layout.tile_height as int;
    Vertex {
        position: Point {
            x: ((col + corner_dx(k)) * tw) as u64,
            y: ((row + corner_dy(k)) * th) as u64,
        },
        color: corner_color(colors, k),
        tex_coords: Point {
            x: ((atlas_col(layout, tile) + corner_dx(k)) * tw) as u64,
            y: ((atlas_row(layout, tile) + corner_dy(k)) * th) as u64,
        },
    }
}

/// The mesh of a grid: four vertices per cell, cells in row-major order.
pub open spec fn mesh_of(grid: TileGrid, layout: AtlasLayout, colors: QuadColors) -> Seq<Vertex> {
    let w = grid.spec_width() as int;
    Seq::new(
        4 * grid.spec_width() * grid.spec_height(),
        |i: int| quad_vertex(layout, colors, (i / 4) % w, (i / 4) / w, grid.cell((i / 4) % w, (i / 4) / w), i % 4),
    )
}

/// Position `4 * (row * width + col) + k` splits back into (col, row, k).
proof fn lemma_split_position(w: int, col: int, row: int, k: int)
    requires
        0 < w,
        0 <= col < w,
        0 <= row,
        0 <= k < 4,
    ensures
        (4 * (row * w + col) + k) / 4 == row * w + col,
        (4 * (row * w + col) + k) % 4 == k,
        (row * w + col) % w == col,
        (row * w + col) / w == row,
{
    vstd::arithmetic::div_mod::lemma_fundamental_div_mod_converse(
        4 * (row * w + col) + k,
        4,
        row * w + col,
        k,
    );
    vstd::arithmetic::div_mod::lemma_fundamental_div_mod_converse(row * w + col, w, row, col);
}

/// A mesh has four vertices per cell, and the quad of the cell (col, row)
/// starts at position `4 * (row * width + col)`: quads stand in row-major
/// order of their cells, corners in the order top-left, top-right,
/// bottom-right, bottom-left.
pub proof fn lemma_mesh_quads(grid: TileGrid, layout: AtlasLayout, colors: QuadColors)
    requires
        grid.wf(),
    ensures
        mesh_of(grid, layout, colors).len() == 4 * grid.spec_width() * grid.spec_height(),
        forall|col: int, row: int, k: int|
            grid.in_bounds(col, row) && 0 <= k < 4 ==> #[trigger] mesh_of(grid, layout, colors)[4 * (
            row * grid.spec_width() + col) + k] == quad_vertex(
                layout,
                colors,
                col,
                row,
                grid.cell(col, row),
                k,
            ),
{
    let w = grid.spec_width() as int;
    let h = grid.spec_height() as int;
    assert forall|col: int, row: int, k: int|
        grid.in_bounds(col, row) && 0 <= k < 4 implies #[trigger] mesh_of(grid, layout, colors)[4
        * (row * w + col) + k] == quad_vertex(layout, colors, col, row, grid.cell(col, row), k) by {
        lemma_split_position(w, col, row, k);
        assert(4 * (row * w + col) + k < 4 * w * h) by (nonlinear_arith)
            requires
                0 <= row < h,
                0 <= col < w,
                0 <= k < 4,
        ;
    }
}

/// Corner `k` of the quad for the cell (col, row) holding `tile`.
fn make_vertex(layout: &AtlasLayout, colors: &QuadColors, col: u32, row: u32, tile: u32, k: u8) -> (v:
    Vertex)
    requires
        layout.tiles_per_row > 0,
        k < 4,
    ensures
        v == quad_vertex(*layout, *colors, col as int, row as int, tile, k as int),
{
    let dx: u64 = if k == 1 || k == 2 {
        1
    } else {
        0
    };
    let dy: u64 = if k == 2 || k == 3 {
        1
    } else {
        0
    };
    let color = if k == 0 {
        colors.top_left
    } else if k == 1 {
        colors.top_right
    } else if k == 2 {
        colors.bottom_right
    } else {
        colors.bottom_left
    };
    let tw = layout.tile_width as u64;
    let th = layout.tile_height as u64;
    let tu = (tile % layout.tiles_per_row) as u64;
    let tv = (tile / layout.tiles_per_row) as u64;
    proof {
        assert((col as u64 + dx) * tw <= u64::MAX) by (nonlinear_arith)
            requires
                col as u64 + dx <= 0x1_0000_0000,
                tw <= 0xffff_ffff,
        ;
        assert((row as u64 + dy) * th <= u64::MAX) by (nonlinear_arith)
            requires
                row as u64 + dy <= 0x1_0000_0000,
                th <= 0xffff_ffff,
        ;
        assert((tu + dx) * tw <= u64::MAX) by (nonlinear_arith)
            requires
                tu + dx <= 0x1_0000_0000,
                tw <= 0xffff_ffff,
        ;
        assert((tv + dy) * th <= u64::MAX) by (nonlinear_arith)
            requires
                tv + dy <= 0x1_0000_0000,
                th <= 0xffff_ffff,
        ;
    }
    Vertex {
        position: Point { x: (col as u64 + dx) * tw, y: (row as u64 + dy) * th },
        color,
        tex_coords: Point { x: (tu + dx) * tw, y: (tv + dy) * th },
    }
}

/// The mesh of `grid` with the corner colors `colors`; a layout with zero
/// tiles per row is rejected.
pub fn build_colored(grid: &TileGrid, layout: &AtlasLayout, colors: &QuadColors) -> (r: Result<
    Vec<Vertex>,
    TileError,
>)
    requires
        grid.wf(),
    ensures
        r is Err <==> layout.tiles_per_row == 0,
        r is Err ==> r->Err_0 == TileError::InvalidAtlasLayout,
        r matches Ok(v) ==> v@ == mesh_of(*grid, *layout, *colors),
{
    if layout.tiles_per_row == 0 {
        return Err(TileError::InvalidAtlasLayout);
    }
    let w = grid.width();
    let h = grid.height();
    let ghost mesh = mesh_of(*grid, *layout, *colors);
    let mut v: Vec<Vertex> = Vec::new();
    let mut row: u32 = 0;
    while row < h
        invariant
            grid.wf(),
            w == grid.spec_width(),
            h == grid.spec_height(),
            layout.tiles_per_row > 0,
            mesh == mesh_of(*grid, *layout, *colors),
            row <= h,
            v@.len() == 4 * (row * w),
            v@.len() <= mesh.len(),
            forall|i: int| 0 <= i < v@.len() ==> v@[i] == mesh[i],
        decreases h - row,
    {
        let mut col: u32 = 0;
        while col < w
            invariant
                grid.wf(),
                w == grid.spec_width(),
                h == grid.spec_height(),
                layout.tiles_per_row > 0,
                mesh == mesh_of(*grid, *layout, *colors),
                row < h,
                col <= w,
                v@.len() == 4 * (row * w + col),
                v@.len() <= mesh.len(),
                forall|i: int| 0 <= i < v@.len() ==> v@[i] == mesh[i],
            decreases w - col,
        {
            let tile = grid.tile_at(col, row);
            proof {
                assert(4 * (row * w + col) + 4 <= 4 * w * h) by (nonlinear_arith)
                    requires
                        row < h,
                        col < w,
                ;
                assert forall|k: int| 0 <= k < 4 implies mesh[4 * (row * w + col) + k]
                    == quad_vertex(*layout, *colors, col as int, row as int, tile, k) by {
                    lemma_split_position(w as int, col as int, row as int, k);
                }
            }
            let mut k: u8 = 0;
            while k < 4
                invariant
                    layout.tiles_per_row > 0,
                    k <= 4,
                    v@.len() == 4 * (row * w + col) + k,
                    4 * (row * w + col) + 4 <= mesh.len(),
                    forall|i: int| 0 <= i < v@.len() ==> v@[i] == mesh[i],
                    forall|j: int|
                        0 <= j < 4 ==> mesh[4 * (row * w + col) + j] == quad_vertex(
                            *layout,
                            *colors,
                            col as int,
                            row as int,
                            tile,
                            j,
                        ),
                decreases 4 - k,
            {
                let vx = make_vertex(layout, colors, col, row, tile, k);
                v.push(vx);
                k += 1;
            }
            col += 1;
        }
        proof {
            assert(row * w + w == (row + 1) * w) by (nonlinear_arith);
        }
        row += 1;
    }
    proof {
        assert(4 * (h * w) == 4 * w * h) by (nonlinear_arith);
        assert(v@ =~= mesh);
    }
    Ok(v)
}

/// The mesh of `grid` with every corner white; a layout with zero tiles per
/// row is rejected.
pub fn build(grid: &TileGrid, layout: &AtlasLayout) -> (r: Result<Vec<Vertex>, TileError>)
    requires
        grid.wf(),
    ensures
        r is Err <==> layout.tiles_per_row == 0,
        r is Err ==> r->Err_0 == TileError::InvalidAtlasLayout,
        r matches Ok(v) ==> v@ == mesh_of(
            *grid,
            *layout,
            uniform_colors((Color { r: 255, g: 255, b: 255 })),
        ),
{
    let colors = QuadColors::uniform(Color::white());
    build_colored(grid, layout, &colors)
}

} // verus!
