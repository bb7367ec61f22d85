//! The board as a mathematical value: three rows of three cells, each empty or
//! holding a sign, and what the rules read off it.

use vstd::prelude::*;
use crate::sign::Sign;

verus! {

/// The board in contracts: `grid[row][column]` is the cell's content.
pub type Grid = Seq<Seq<Option<Sign>>>;

/// Three rows of three cells.
pub open spec fn is_grid(grid: Grid) -> bool {
    &&& grid.len() == 3
    &&& grid[0].len() == 3
    &&& grid[1].len() == 3
    &&& grid[2].len() == 3
}

/// The board on which nobody has moved.
pub open spec fn empty_grid() -> Grid {
    Seq::new(3, |row: int| Seq::new(3, |column: int| None::<Sign>))
}

/// The board after `sign` was written at `(row, column)`.
pub open spec fn place(grid: Grid, row: int, column: int, sign: Sign) -> Grid {
    grid.update(row, grid[row].update(column, Some(sign)))
}

/// Three cells win when the first is occupied and the other two hold what it holds.
pub open spec fn trio_wins(grid: Grid, first: (int, int), second: (int, int), third: (int, int)) -> bool {
    &&& grid[first.0][first.1] is Some
    &&& grid[first.0][first.1] == grid[second.0][second.1]
    &&& grid[first.0][first.1] == grid[third.0][third.1]
}

pub open spec fn row_wins(grid: Grid, row: int) -> bool {
    trio_wins(grid, (row, 0), (row, 1), (row, 2))
}

pub open spec fn column_wins(grid: Grid, column: int) -> bool {
    trio_wins(grid, (0, column), (1, column), (2, column))
}

pub open spec fn diagonal_wins(grid: Grid) -> bool {
    trio_wins(grid, (0, 0), (1, 1), (2, 2))
}

pub open spec fn anti_diagonal_wins(grid: Grid) -> bool {
    trio_wins(grid, (0, 2), (1, 1), (2, 0))
}

/// One of the eight lines (three rows, three columns, two diagonals) wins.
pub open spec fn has_winner(grid: Grid) -> bool {
    ||| row_wins(grid, 0)
    ||| row_wins(grid, 1)
    ||| row_wins(grid, 2)
    ||| column_wins(grid, 0)
    ||| column_wins(grid, 1)
    ||| column_wins(grid, 2)
    ||| diagonal_wins(grid)
    ||| anti_diagonal_wins(grid)
}

/// No cell is empty.
pub open spec fn is_full(grid: Grid) -> bool {
    forall|row: int, column: int|
        0 <= row < 3 && 0 <= column < 3 ==> (#[trigger] grid[row][column]) is Some
}

/// 1 for an occupied cell, 0 for an empty one.
pub open spec fn mark(grid: Grid, row: int, column: int) -> nat {
    if grid[row][column] is Some {
        1
    } else {
        0
    }
}

/// How many cells of `row` are occupied.
pub open spec fn row_filled(grid: Grid, row: int) -> nat {
    mark(grid, row, 0) + mark(grid, row, 1) + mark(grid, row, 2)
}

/// How many of the nine cells are occupied.
pub open spec fn filled(grid: Grid) -> nat {
    row_filled(grid, 0) + row_filled(grid, 1) + row_filled(grid, 2)
}

/// The empty board is a board with nothing on it: no cell counted, no line won.
pub proof fn lemma_empty_grid()
    ensures
        is_grid(empty_grid()),
        filled(empty_grid()) == 0,
        !has_winner(empty_grid()),
        !is_full(empty_grid()),
        forall|row: int, column: int|
            0 <= row < 3 && 0 <= column < 3 ==> (#[trigger] empty_grid()[row][column]) is None,
{
    assert(empty_grid()[0][0] is None);
}

/// A board is full exactly when all nine cells are counted, and never counts more.
pub proof fn lemma_full_iff_nine(grid: Grid)
    requires
        is_grid(grid),
    ensures
        filled(grid) <= 9,
        is_full(grid) <==> filled(grid) == 9,
{
    if filled(grid) == 9 {
        assert forall|row: int, column: int| 0 <= row < 3 && 0 <= column < 3 implies (
        #[trigger] grid[row][column]) is Some by {
            assert(mark(grid, row, column) == 1);
        }
    }
    if is_full(grid) {
        assert(grid[0][0] is Some && grid[0][1] is Some && grid[0][2] is Some);
        assert(grid[1][0] is Some && grid[1][1] is Some && grid[1][2] is Some);
        assert(grid[2][0] is Some && grid[2][1] is Some && grid[2][2] is Some);
    }
}

/// Writing a sign changes the one cell and no other; on an empty cell it adds
/// one to the count.
pub proof fn lemma_place(grid: Grid, row: int, column: int, sign: Sign)
    requires
        is_grid(grid),
        0 <= row < 3,
        0 <= column < 3,
    ensures
        is_grid(place(grid, row, column, sign)),
        place(grid, row, column, sign)[row][column] == Some(sign),
        forall|r: int, c: int|
            0 <= r < 3 && 0 <= c < 3 && !(r == row && c == column) ==> (#[trigger] place(
                grid,
                row,
                column,
                sign,
            )[r][c]) == grid[r][c],
        grid[row][column] is None ==> filled(place(grid, row, column, sign)) == filled(grid) + 1,
{
    let next = place(grid, row, column, sign);
    assert forall|r: int, c: int| 0 <= r < 3 && 0 <= c < 3 && !(r == row && c == column) implies (
    #[trigger] next[r][c]) == grid[r][c] by {}
    if grid[row][column] is None {
        assert forall|r: int, c: int| 0 <= r < 3 && 0 <= c < 3 implies #[trigger] mark(next, r, c)
            == mark(grid, r, c) + (if r == row && c == column {
            1nat
        } else {
            0nat
        }) by {
            if !(r == row && c == column) {
                assert(next[r][c] == grid[r][c]);
            }
        }
        assert(row_filled(next, 0) == row_filled(grid, 0) + (if row == 0 { 1nat } else { 0nat }));
        assert(row_filled(next, 1) == row_filled(grid, 1) + (if row == 1 { 1nat } else { 0nat }));
        assert(row_filled(next, 2) == row_filled(grid, 2) + (if row == 2 { 1nat } else { 0nat }));
    }
}

} // verus!
