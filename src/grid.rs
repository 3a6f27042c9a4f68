use vstd::prelude::*;

use crate::error::TileError;

verus! {

/// The tile stored at (col, row) of a row-major sequence of cells that is
/// `width` cells wide.
pub open spec fn cell_at(cells: Seq<u32>, width: nat, col: int, row: int) -> u32 {
    cells[col + row * width]
}

/// A fixed-size grid of tile indices, stored row-major: the cell (col, row)
/// lives at position `col + row * width`.
pub struct TileGrid {
    width: u32,
    height: u32,
    tiles: Vec<u32>,
}

impl TileGrid {
    /// Number of columns.
    pub closed spec fn spec_width(&self) -> nat {
        self.width as nat
    }

    /// Number of rows.
    pub closed spec fn spec_height(&self) -> nat {
        self.height as nat
    }

    /// All cells, row by row.
    pub closed spec fn cells(&self) -> Seq<u32> {
        self.tiles@
    }

    /// Every cell has exactly one tile index, and every position fits a `usize`.
    pub open spec fn wf(&self) -> bool {
        &&& self.spec_width() > 0
        &&& self.spec_height() > 0
        &&& self.spec_width() <= u32::MAX
        &&& self.spec_height() <= u32::MAX
        &&& self.spec_width() * self.spec_height() <= usize::MAX
        &&& self.cells().len() == self.spec_width() * self.spec_height()
    }

    pub open spec fn in_bounds(&self, col: int, row: int) -> bool {
        0 <= col < self.spec_width() && 0 <= row < self.spec_height()
    }

    /// Position in `cells()` of the cell (col, row).
    pub open spec fn index_of(&self, col: int, row: int) -> int {
        col + row * self.spec_width()
    }

    /// The tile at (col, row).
    pub open spec fn cell(&self, col: int, row: int) -> u32 {
        cell_at(self.cells(), self.spec_width(), col, row)
    }

    /// The cells after the tile at (col, row) is replaced by `tile`.
    pub open spec fn updated(&self, col: int, row: int, tile: u32) -> Seq<u32> {
        self.cells().update(self.index_of(col, row), tile)
    }

    /// A `width` x `height` grid whose every cell holds `fill`; a zero
    /// dimension is rejected.
    pub fn new(width: u32, height: u32, fill: u32) -> (r: Result<TileGrid, TileError>)
        requires
            width as nat * height as nat <= usize::MAX,
        ensures
            r is Err <==> (width == 0 || height == 0),
            r is Err ==> r->Err_0 == TileError::InvalidDimension,
            r matches Ok(g) ==> {
                &&& g.wf()
                &&& g.spec_width() == width
                &&& g.spec_height() == height
                &&& forall|col: int, row: int| #[trigger] g.in_bounds(col, row) ==> g.cell(col, row) == fill
            },
    {
        if width == 0 || height == 0 {
            return Err(TileError::InvalidDimension);
        }
        let n: usize = (width as usize) * (height as usize);
        let mut tiles: Vec<u32> = Vec::new();
        let mut i: usize = 0;
        while i < n
            invariant
                i <= n,
                tiles@.len() == i,
                forall|k: int| 0 <= k < i ==> tiles@[k] == fill,
            decreases n - i,
        {
            tiles.push(fill);
            i += 1;
        }
        let g = TileGrid { width, height, tiles };
        assert forall|col: int, row: int| #[trigger] g.in_bounds(col, row) implies g.cell(col, row) == fill by {
            lemma_index_in_range(width as nat, height as nat, col, row);
        }
        Ok(g)
    }

    pub fn width(&self) -> (r: u32)
        ensures
            r == self.spec_width(),
    {
        self.width
    }

    pub fn height(&self) -> (r: u32)
        ensures
            r == self.spec_height(),
    {
        self.height
    }

    /// Position of the cell (col, row) in the row-major storage.
    pub fn idx(&self, col: u32, row: u32) -> (r: usize)
        requires
            self.wf(),
            self.in_bounds(col as int, row as int),
        ensures
            r == self.index_of(col as int, row as int),
            r < self.cells().len(),
    {
        proof {
            lemma_index_in_range(self.spec_width(), self.spec_height(), col as int, row as int);
        }
        (col as usize) + (row as usize) * (self.width as usize)
    }

    /// The tile at (col, row), which lies in the grid.
    pub fn tile_at(&self, col: u32, row: u32) -> (r: u32)
        requires
            self.wf(),
            self.in_bounds(col as int, row as int),
        ensures
            r == self.cell(col as int, row as int),
    {
        let n = self.idx(col, row);
        self.tiles[n]
    }

    /// The tile at (col, row), or `OutOfBounds`.
    pub fn get(&self, col: u32, row: u32) -> (r: Result<u32, TileError>)
        requires
            self.wf(),
        ensures
            self.in_bounds(col as int, row as int) ==> r == Ok::<u32, TileError>(
                self.cell(col as int, row as int),
            ),
            !self.in_bounds(col as int, row as int) ==> r == Err::<u32, TileError>(
                TileError::OutOfBounds,
            ),
    {
        if col >= self.width || row >= self.height {
            return Err(TileError::OutOfBounds);
        }
        Ok(self.tile_at(col, row))
    }

    /// Replaces the tile at (col, row); out of the grid, nothing changes and
    /// `OutOfBounds` is returned.
    pub fn set(&mut self, col: u32, row: u32, tile: u32) -> (r: Result<(), TileError>)
        requires
            old(self).wf(),
        ensures
            final(self).wf(),
            final(self).spec_width() == old(self).spec_width(),
            final(self).spec_height() == old(self).spec_height(),
            old(self).in_bounds(col as int, row as int) ==> {
                &&& r is Ok
                &&& final(self).cells() == old(self).updated(col as int, row as int, tile)
            },
            !old(self).in_bounds(col as int, row as int) ==> {
                &&& r == Err::<(), TileError>(TileError::OutOfBounds)
                &&& *final(self) == *old(self)
            },
    {
        if col >= self.width || row >= self.height {
            return Err(TileError::OutOfBounds);
        }
        let n = self.idx(col, row);
        self.tiles.set(n, tile);
        Ok(())
    }
}

/// A cell inside a `width` x `height` grid has a position below `width * height`.
proof fn lemma_index_in_range(width: nat, height: nat, col: int, row: int)
    requires
        0 <= col < width,
        0 <= row < height,
    ensures
        0 <= col + row * width < width * height,
{
    assert(0 <= col + row * width < width * height) by (nonlinear_arith)
        requires
            0 <= col < width,
            0 <= row < height,
    ;
}

/// Two cells of a grid share a position only if they are the same cell.
proof fn lemma_index_injective(width: nat, c1: int, r1: int, c2: int, r2: int)
    requires
        0 <= c1 < width,
        0 <= c2 < width,
        0 <= r1,
        0 <= r2,
        c1 + r1 * width == c2 + r2 * width,
    ensures
        c1 == c2,
        r1 == r2,
{
    vstd::arithmetic::div_mod::lemma_fundamental_div_mod_converse(c1 + r1 * width, width as int, r1, c1);
    vstd::arithmetic::div_mod::lemma_fundamental_div_mod_converse(c2 + r2 * width, width as int, r2, c2);
}

/// Setting one cell: reading it back gives the new tile, and every other
/// cell keeps its tile.
pub proof fn lemma_set_locality(grid: TileGrid, col: int, row: int, tile: u32)
    requires
        grid.wf(),
        grid.in_bounds(col, row),
    ensures
        cell_at(grid.updated(col, row, tile), grid.spec_width(), col, row) == tile,
        forall|c: int, r: int|
            #![trigger cell_at(grid.updated(col, row, tile), grid.spec_width(), c, r)]
            grid.in_bounds(c, r) && (c != col || r != row) ==> cell_at(
                grid.updated(col, row, tile),
                grid.spec_width(),
                c,
                r,
            ) == grid.cell(c, r),
{
    lemma_index_in_range(grid.spec_width(), grid.spec_height(), col, row);
    assert forall|c: int, r: int|
        #![trigger cell_at(grid.updated(col, row, tile), grid.spec_width(), c, r)]
        grid.in_bounds(c, r) && (c != col || r != row) implies cell_at(
            grid.updated(col, row, tile),
            grid.spec_width(),
            c,
            r,
        ) == grid.cell(c, r) by {
        lemma_index_in_range(grid.spec_width(), grid.spec_height(), c, r);
        if c + r * grid.spec_width() == col + row * grid.spec_width() {
            lemma_index_injective(grid.spec_width(), c, r, col, row);
        }
    }
}

} // verus!
