//! The reasons for which an operation is rejected.

use vstd::prelude::*;

verus! {

/// Why `start` or `play` refused to act. A refused operation changes nothing.
#[derive(Clone, Copy, Debug, PartialEq, Eq, Structural)]
pub enum TicTacToeError {
    /// The tile lies outside the 3×3 board.
    TileOutOfBounds,
    /// The tile already holds a sign.
    TileAlreadySet,
    /// The game has been won or tied.
    GameAlreadyOver,
    /// The move came from the participant whose turn it is not. The rules do
    /// not raise it themselves: whoever authenticates the caller does.
    NotPlayersTurn,
    /// `start` was called on a game that had left turn 0.
    GameAlreadyStarted,
}

} // verus!
