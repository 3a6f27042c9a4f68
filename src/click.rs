use vstd::prelude::*;

use crate::grid::TileGrid;
use crate::mesh::AtlasLayout;

verus! {

/// `p` divided by `d`, rounded down (towards negative infinity for negative `p`).
fn floor_div(p: i32, d: u32) -> (q: i64)
    requires
        d > 0,
    ensures
        q == p as int / d as int,
{
    if p >= 0 {
        ((p as u32) / d) as i64
    } else {
        let m: u64 = (0i64 - p as i64) as u64;
        let dd: u64 = d as u64;
        let q: u64 = (m + dd - 1) / dd;
        proof {
            let s = (m + dd - 1) % dd as int;
            vstd::arithmetic::div_mod::lemma_fundamental_div_mod((m + dd - 1) as int, dd as int);
            assert(m + dd - 1 == dd * q + s);
            assert(p as int == -q * dd + (dd - 1 - s)) by (nonlinear_arith)
                requires
                    m + dd - 1 == dd * q + s,
                    p as int == -(m as int),
            ;
            vstd::arithmetic::div_mod::lemma_fundamental_div_mod_converse(
                p as int,
                dd as int,
                -(q as int),
                dd - 1 - s,
            );
            assert(q <= m) by (nonlinear_arith)
                requires
                    m + dd - 1 == dd * q + s,
                    0 <= s,
                    dd >= 1,
                    q >= 0,
            ;
        }
        0i64 - q as i64
    }
}

/// The grid cell under the pixel (px, py) when cells are `tile_width` x
/// `tile_height` pixels; the result may lie outside any grid.
pub fn pixel_to_cell(px: i32, py: i32, tile_width: u32, tile_height: u32) -> (r: (i64, i64))
    requires
        tile_width > 0,
        tile_height > 0,
    ensures
        r.0 == px as int / tile_width as int,
        r.1 == py as int / tile_height as int,
{
    (floor_div(px, tile_width), floor_div(py, tile_height))
}

/// Sets the cell under the pixel (px, py) to `tile` when that cell lies in the
/// grid, and returns whether it did; a click outside the grid changes nothing.
pub fn apply_click(grid: &mut TileGrid, layout: &AtlasLayout, px: i32, py: i32, tile: u32) -> (changed:
    bool)
    requires
        old(grid).wf(),
        layout.tile_width > 0,
        layout.tile_height > 0,
    ensures
        final(grid).wf(),
        changed == old(grid).in_bounds(
            px as int / layout.tile_width as int,
            py as int / layout.tile_height as int,
        ),
        changed ==> {
            &&& final(grid).spec_width() == old(grid).spec_width()
            &&& final(grid).spec_height() == old(grid).spec_height()
            &&& final(grid).cells() == old(grid).updated(
                px as int / layout.tile_width as int,
                py as int / layout.tile_height as int,
                tile,
            )
        },
        !changed ==> *final(grid) == *old(grid),
{
    let (col, row) = pixel_to_cell(px, py, layout.tile_width, layout.tile_height);
    if col < 0 || row < 0 || col >= grid.width() as i64 || row >= grid.height() as i64 {
        return false;
    }
    let _ = grid.set(col as u32, row as u32, tile);
    true
}

} // verus!
