//! Board coordinates.

use vstd::prelude::*;

verus! {

/// The coordinates of one cell, as a caller submits them.
#[derive(Clone, Copy, Debug, PartialEq, Eq, Structural)]
pub struct Tile {
    pub row: u8,
    pub column: u8,
}

impl Tile {
    /// Whether the tile names a cell of the 3×3 board.
    pub open spec fn in_bounds(self) -> bool {
        self.row <= 2 && self.column <= 2
    }
}

} // verus!
