//! The executable game: two participants, a turn counter, the board and the
//! state, with `start` and `play` as the only ways to change them.

use vstd::prelude::*;
use anchor_lang::prelude::Pubkey;
use crate::error::TicTacToeError;
use crate::grid::{
    anti_diagonal_wins, column_wins, diagonal_wins, empty_grid, filled, has_winner, is_full,
    lemma_empty_grid, lemma_full_iff_nine, lemma_place, mark, place, row_filled, row_wins,
    trio_wins,
};
use crate::identity::{same_identity, unassigned_identity};
use crate::model::{GameModel, GameState};
use crate::sign::Sign;
use crate::tile::Tile;

verus! {

/// One match. A value is made by [`Game::new`], started once by
/// [`Game::start`] and then changed by [`Game::play`] alone.
#[derive(Clone, Debug, PartialEq, Eq)]
pub struct Game {
    players: [Pubkey; 2],
    turn: u8,
    board: [[Option<Sign>; 3]; 3],
    state: GameState,
}

/// The game that the four stored parts describe.
pub open spec fn model_of(
    players: [Pubkey; 2],
    turn: u8,
    board: [[Option<Sign>; 3]; 3],
    state: GameState,
) -> GameModel {
    GameModel {
        players: players@,
        turn: turn as nat,
        board: Seq::new(3, |row: int| board[row]@),
        state,
    }
}

impl View for Game {
    type V = GameModel;

    closed spec fn view(&self) -> GameModel {
        model_of(self.players, self.turn, self.board, self.state)
    }
}

impl Game {
    /// Bytes that a stored game takes at most: two identities, the turn, nine
    /// optional signs, and the largest state.
    pub const MAXIMUM_SIZE: usize = (32 * 2) + 1 + (9 * (1 + 1)) + (32 + 1);

    /// A game that has not been started: empty board, turn 0, active. The two
    /// participant slots hold keys that `start` replaces.
    pub fn new() -> (game: Game)
        ensures
            game@ == GameModel::fresh(game@.players),
            game@.well_formed(),
    {
        let game = Game {
            players: [unassigned_identity(), unassigned_identity()],
            turn: 0,
            board: [[None; 3]; 3],
            state: GameState::Active,
        };
        proof {
            lemma_empty_grid();
            assert(game@.board =~~= empty_grid());
        }
        game
    }

    /// Rebuilds a game from its four parts, as they come back from storage.
    /// The result is `Some` exactly when the parts are well formed: on turn 0
    /// an empty board and the active state; afterwards the state that the
    /// board bears out, with the current participant as the winner of a won
    /// game, and one filled cell for each turn that has gone by, or one more.
    /// Which signs fill the cells is not examined.
    pub fn from_parts(
        players: [Pubkey; 2],
        turn: u8,
        board: [[Option<Sign>; 3]; 3],
        state: GameState,
    ) -> (restored: Option<Game>)
        ensures
            match restored {
                Some(game) => game@ == model_of(players, turn, board, state)
                    && game@.well_formed(),
                None => !model_of(players, turn, board, state).well_formed(),
            },
    {
        let mut game = Game { players, turn, board, state: GameState::Active };
        let count: u16 = game.filled_cells() as u16;
        let agrees = if turn == 0 {
            match state {
                GameState::Active => count == 0,
                _ => false,
            }
        } else {
            game.update_state();
            let elapsed: u16 = if game.is_active() {
                turn as u16 - 1
            } else {
                turn as u16
            };
            let counted = count == elapsed || count == elapsed + 1;
            let borne_out = match (state, game.state) {
                (GameState::Active, GameState::Active) => true,
                (GameState::Tie, GameState::Tie) => true,
                (GameState::Won { winner }, GameState::Won { winner: mover }) => same_identity(
                    &winner,
                    &mover,
                ),
                _ => false,
            };
            counted && borne_out
        };
        if agrees {
            Some(game)
        } else {
            None
        }
    }

    /// The two participants, the first to move at index 0.
    pub fn players(&self) -> (players: [Pubkey; 2])
        ensures
            players@ == self@.players,
    {
        self.players
    }

    /// 0 until `start` or the first move, then one more with every move that
    /// leaves the game active. In a game that was started before its first
    /// move this is the number of the move that comes next, and in a finished
    /// one the number of the last move.
    pub fn turn(&self) -> (turn: u8)
        ensures
            turn == self@.turn,
    {
        self.turn
    }

    /// The nine cells, `board[row][column]`.
    pub fn board(&self) -> (board: [[Option<Sign>; 3]; 3])
        ensures
            forall|row: int, column: int|
                0 <= row < 3 && 0 <= column < 3 ==> (#[trigger] board[row][column])
                    == self@.board[row][column],
    {
        self.board
    }

    /// Where the game stands.
    pub fn state(&self) -> (state: GameState)
        ensures
            state == self@.state,
    {
        self.state
    }

    /// Seats the two participants and begins the first turn. A game that has
    /// left turn 0, by an earlier `start` or by a move, refuses and stays as
    /// it is.
    pub fn start(&mut self, players: [Pubkey; 2]) -> (result: Result<(), TicTacToeError>)
        requires
            old(self)@.well_formed(),
        ensures
            final(self)@.well_formed(),
            match old(self)@.start(players@) {
                Ok(next) => result is Ok && final(self)@ == next,
                Err(error) => result == Err::<(), TicTacToeError>(error) && *final(self) == *old(
                    self,
                ),
            },
    {
        if self.turn != 0 {
            return Err(TicTacToeError::GameAlreadyStarted);
        }
        proof {
            lemma_full_iff_nine(self@.board);
            assert(!has_winner(self@.board));
        }
        self.players = players;
        self.turn = 1;
        Ok(())
    }

    /// Whether moves are still accepted.
    pub fn is_active(&self) -> (active: bool)
        ensures
            active == self@.is_active(),
    {
        self.state.is_active()
    }

    fn current_player_index(&self) -> (index: usize)
        ensures
            index == self@.current_player_index(),
            index < 2,
    {
        if self.turn % 2 == 1 {
            0
        } else {
            1
        }
    }

    /// The participant whose move comes next: the first on odd turns, the
    /// second on even ones, turn 0 included. In a finished game this is the
    /// one who made the last move.
    pub fn current_player(&self) -> (player: Pubkey)
        ensures
            player == self@.current_player(),
    {
        self.players[self.current_player_index()]
    }

    /// Writes the current sign on `tile`, reads the new state off the board,
    /// and lets the turn advance if the game goes on. Refused, with nothing
    /// changed: on a finished game, then with a tile off the board, then on an
    /// occupied cell.
    ///
    /// A game on turn 0 takes a move like any other: the move writes `O`, turn
    /// 1 begins, and `start` is refused from then on.
    pub fn play(&mut self, tile: &Tile) -> (result: Result<(), TicTacToeError>)
        requires
            old(self)@.well_formed(),
        ensures
            final(self)@.well_formed(),
            match old(self)@.play(*tile) {
                Ok(next) => result is Ok && final(self)@ == next,
                Err(error) => result == Err::<(), TicTacToeError>(error) && *final(self) == *old(
                    self,
                ),
            },
    {
        if !self.is_active() {
            return Err(TicTacToeError::GameAlreadyOver);
        }
        if tile.row > 2 || tile.column > 2 {
            return Err(TicTacToeError::TileOutOfBounds);
        }
        let row: usize = tile.row as usize;
        let column: usize = tile.column as usize;
        match self.board[row][column] {
            Some(_) => {
                return Err(TicTacToeError::TileAlreadySet);
            },
            None => {
                let sign = Sign::from_usize(self.current_player_index()).unwrap();
                self.board[row][column] = Some(sign);
            },
        }
        proof {
            lemma_place(old(self)@.board, row as int, column as int, old(self)@.current_sign());
            assert(self@.board =~~= place(
                old(self)@.board,
                row as int,
                column as int,
                old(self)@.current_sign(),
            ));
            lemma_full_iff_nine(self@.board);
        }

        self.update_state();

        if self.is_active() {
            self.turn += 1;
        }
        Ok(())
    }

    fn filled_cells(&self) -> (count: u8)
        ensures
            count == filled(self@.board),
    {
        let mut count: u8 = 0;
        let mut row: usize = 0;
        while row < 3
            invariant
                row <= 3,
                count == (if row >= 1 {
                    row_filled(self@.board, 0)
                } else {
                    0
                }) + (if row >= 2 {
                    row_filled(self@.board, 1)
                } else {
                    0
                }) + (if row >= 3 {
                    row_filled(self@.board, 2)
                } else {
                    0
                }),
            decreases 3 - row,
        {
            let mut column: usize = 0;
            while column < 3
                invariant
                    row < 3,
                    column <= 3,
                    count <= 6 + column,
                    count == (if row >= 1 {
                        row_filled(self@.board, 0)
                    } else {
                        0
                    }) + (if row >= 2 {
                        row_filled(self@.board, 1)
                    } else {
                        0
                    }) + (if column >= 1 {
                        mark(self@.board, row as int, 0)
                    } else {
                        0
                    }) + (if column >= 2 {
                        mark(self@.board, row as int, 1)
                    } else {
                        0
                    }) + (if column >= 3 {
                        mark(self@.board, row as int, 2)
                    } else {
                        0
                    }),
                decreases 3 - column,
            {
                if self.board[row][column].is_some() {
                    count += 1;
                }
                column += 1;
            }
            row += 1;
        }
        count
    }

    fn is_winning_trio(&self, trio: [(usize, usize); 3]) -> (wins: bool)
        requires
            forall|k: int| 0 <= k < 3 ==> (#[trigger] trio[k]).0 < 3 && trio[k].1 < 3,
        ensures
            wins == trio_wins(
                self@.board,
                (trio[0].0 as int, trio[0].1 as int),
                (trio[1].0 as int, trio[1].1 as int),
                (trio[2].0 as int, trio[2].1 as int),
            ),
    {
        let first = trio[0];
        let second = trio[1];
        let third = trio[2];
        self.board[first.0][first.1].is_some()
            && self.board[first.0][first.1] == self.board[second.0][second.1]
            && self.board[first.0][first.1] == self.board[third.0][third.1]
    }

    /// Reads the state off the board: won by the current participant if one of
    /// the eight lines wins, tied if no line wins and no cell is empty, and
    /// otherwise what it was.
    fn update_state(&mut self)
        ensures
            final(self).players == old(self).players,
            final(self).turn == old(self).turn,
            final(self).board == old(self).board,
            final(self).state == if has_winner(old(self)@.board) {
                GameState::Won { winner: old(self)@.current_player() }
            } else if is_full(old(self)@.board) {
                GameState::Tie
            } else {
                old(self).state
            },
    {
        let mut i: usize = 0;
        while i < 3
            invariant
                i <= 3,
                *self == *old(self),
                forall|j: int|
                    0 <= j < i ==> !row_wins(self@.board, j) && !column_wins(self@.board, j),
            decreases 3 - i,
        {
            // three of the same in one row
            if self.is_winning_trio([(i, 0), (i, 1), (i, 2)]) {
                self.state = GameState::Won { winner: self.current_player() };
                return ;
            }
            // three of the same in one column
            if self.is_winning_trio([(0, i), (1, i), (2, i)]) {
                self.state = GameState::Won { winner: self.current_player() };
                return ;
            }
            i += 1;
        }
        // three of the same in one diagonal
        if self.is_winning_trio([(0, 0), (1, 1), (2, 2)]) || self.is_winning_trio(
            [(0, 2), (1, 1), (2, 0)],
        ) {
            self.state = GameState::Won { winner: self.current_player() };
            return ;
        }
        assert(!has_winner(self@.board)) by {
            assert(!row_wins(self@.board, 0) && !column_wins(self@.board, 0));
            assert(!row_wins(self@.board, 1) && !column_wins(self@.board, 1));
            assert(!row_wins(self@.board, 2) && !column_wins(self@.board, 2));
            assert(!diagonal_wins(self@.board) && !anti_diagonal_wins(self@.board));
        }

        // no line wins: the game goes on while a cell is left
        let mut row: usize = 0;
        while row < 3
            invariant
                row <= 3,
                *self == *old(self),
                !has_winner(self@.board),
                forall|r: int, c: int|
                    0 <= r < row && 0 <= c < 3 ==> (#[trigger] self@.board[r][c]) is Some,
            decreases 3 - row,
        {
            let mut column: usize = 0;
            while column < 3
                invariant
                    row < 3,
                    column <= 3,
                    *self == *old(self),
                    !has_winner(self@.board),
                    forall|r: int, c: int|
                        0 <= r < row && 0 <= c < 3 ==> (#[trigger] self@.board[r][c]) is Some,
                    forall|c: int| 0 <= c < column ==> (#[trigger] self@.board[row as int][c]) is Some,
                decreases 3 - column,
            {
                if self.board[row][column].is_none() {
                    assert(self@.board[row as int][column as int] is None);
                    return ;
                }
                column += 1;
            }
            row += 1;
        }

        // no line wins and no cell is left: a tie
        self.state = GameState::Tie;
    }
}

} // verus!
