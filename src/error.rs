use vstd::prelude::*;

verus! {

/// The failures that the grid and the mesh builder report to their caller.
#[derive(Debug, Clone, Copy, PartialEq, Eq, Structural)]
pub enum TileError {
    /// A grid was requested with a zero width or a zero height.
    InvalidDimension,
    /// A cell was addressed outside the grid.
    OutOfBounds,
    /// The atlas layout has zero tiles per row.
    InvalidAtlasLayout,
}

} // verus!
