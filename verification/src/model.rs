//! The game as a mathematical value, and the two operations as functions on it.
//!
//! Every contract of the executable `Game` is stated over `GameModel`: what
//! `start` and `play` return here is what they return there.

use vstd::prelude::*;
use anchor_lang::prelude::Pubkey;
use crate::error::TicTacToeError;
use crate::grid::{empty_grid, filled, has_winner, is_full, is_grid, place, Grid};
use crate::sign::Sign;
use crate::tile::Tile;

verus! {

/// Where a game stands.
#[derive(Clone, Copy, Debug, PartialEq, Eq)]
pub enum GameState {
    /// Moves are accepted.
    Active,
    /// The board filled up with no line won.
    Tie,
    /// A line was completed by `winner`.
    Won { winner: Pubkey },
}

impl GameState {
    /// Whether this is the state in which moves are accepted.
    pub fn is_active(&self) -> (active: bool)
        ensures
            active == (*self is Active),
    {
        match self {
            GameState::Active => true,
            _ => false,
        }
    }
}

/// What the board says of a game in which `mover` made the last move: won by
/// `mover` if a line wins, else tied if no cell is left, else still active.
pub open spec fn outcome(board: Grid, mover: Pubkey) -> GameState {
    if has_winner(board) {
        GameState::Won { winner: mover }
    } else if is_full(board) {
        GameState::Tie
    } else {
        GameState::Active
    }
}

/// A game in contracts.
pub struct GameModel {
    /// The two participants, the first to move at index 0.
    pub players: Seq<Pubkey>,
    /// 0 until `start` or the first move, then one more with every move that
    /// leaves the game active.
    pub turn: nat,
    pub board: Grid,
    pub state: GameState,
}

impl GameModel {
    /// A game that has not been started, between `players`.
    pub open spec fn fresh(players: Seq<Pubkey>) -> GameModel {
        GameModel { players, turn: 0, board: empty_grid(), state: GameState::Active }
    }

    /// The game has left turn 0, by `start` or by a move.
    pub open spec fn is_started(self) -> bool {
        self.turn != 0
    }

    pub open spec fn is_active(self) -> bool {
        self.state is Active
    }

    /// Index of the participant who moves next: 0 on odd turns, 1 on even
    /// ones, turn 0 among them.
    pub open spec fn current_player_index(self) -> int {
        (self.turn - 1) % 2
    }

    pub open spec fn current_player(self) -> Pubkey
        recommends
            self.players.len() == 2,
    {
        self.players[self.current_player_index()]
    }

    /// The sign that the next move writes: `X` for index 0, `O` for index 1.
    pub open spec fn current_sign(self) -> Sign {
        if self.current_player_index() == 0 {
            Sign::X
        } else {
            Sign::O
        }
    }

    /// The turns that have gone by: all before the current one while the game
    /// is active, the last one too once it is over.
    pub open spec fn elapsed_turns(self) -> int {
        if self.is_active() {
            self.turn - 1
        } else {
            self.turn as int
        }
    }

    /// The game was started before its first move: it is on turn 1 or later,
    /// and one cell is filled for each turn that has gone by.
    pub open spec fn started_first(self) -> bool {
        &&& self.turn >= 1
        &&& filled(self.board) == self.elapsed_turns()
    }

    /// What holds of every game that `start` and `play` can reach. On turn 0
    /// the game is active and the board empty. Afterwards the state is what
    /// the board says, and one cell is filled for each turn that has gone by,
    /// or one more where the first move was made on turn 0, before any `start`.
    pub open spec fn well_formed(self) -> bool {
        &&& self.players.len() == 2
        &&& is_grid(self.board)
        &&& if self.turn == 0 {
            self.state is Active && filled(self.board) == 0
        } else {
            &&& self.state == outcome(self.board, self.current_player())
            &&& (filled(self.board) == self.elapsed_turns() || filled(self.board)
                == self.elapsed_turns() + 1)
        }
    }

    /// `start`: refused on a started game, else the participants take their
    /// places and the first turn begins.
    pub open spec fn start(self, players: Seq<Pubkey>) -> Result<GameModel, TicTacToeError> {
        if self.turn != 0 {
            Err(TicTacToeError::GameAlreadyStarted)
        } else {
            Ok(GameModel { players, turn: 1, ..self })
        }
    }

    /// `play`: refused on a finished game, then on a tile off the board, then
    /// on an occupied cell. Else the current sign is written, the state is read
    /// off the new board, and the turn advances if the game goes on. A game on
    /// turn 0 takes a move like any other: `O` is written and turn 1 begins.
    pub open spec fn play(self, tile: Tile) -> Result<GameModel, TicTacToeError> {
        if !self.is_active() {
            Err(TicTacToeError::GameAlreadyOver)
        } else if !tile.in_bounds() {
            Err(TicTacToeError::TileOutOfBounds)
        } else if self.board[tile.row as int][tile.column as int] is Some {
            Err(TicTacToeError::TileAlreadySet)
        } else {
            let board = place(self.board, tile.row as int, tile.column as int, self.current_sign());
            let state = outcome(board, self.current_player());
            let turn = if state is Active {
                self.turn + 1
            } else {
                self.turn
            };
            Ok(GameModel { players: self.players, turn, board, state })
        }
    }
}

} // verus!
