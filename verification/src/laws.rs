//! What holds of every game, proved over the model that the contracts of
//! `Game` are stated in.

use vstd::prelude::*;
use anchor_lang::prelude::Pubkey;
use crate::error::TicTacToeError;
use crate::grid::{filled, has_winner, is_full, is_grid, lemma_full_iff_nine, lemma_place, place};
use crate::history::Operation;
use crate::model::GameModel;
use crate::sign::Sign;
use crate::tile::Tile;

verus! {

/// The sign that is written on a given turn: `X` on odd turns, `O` on even ones.
pub open spec fn sign_of_turn(turn: int) -> Sign {
    if turn % 2 == 1 {
        Sign::X
    } else {
        Sign::O
    }
}

/// `start` keeps a game well formed, whether it is accepted or not, and never
/// takes the turn back. Where it is accepted, the game was started before its
/// first move.
pub proof fn start_keeps_well_formed(game: GameModel, players: Seq<Pubkey>)
    requires
        game.well_formed(),
        players.len() == 2,
    ensures
        game.apply(Operation::Start { players }).well_formed(),
        game.apply(Operation::Start { players }).turn >= game.turn,
        game.start(players) is Ok ==> game.apply(Operation::Start { players }).started_first(),
{
    if game.turn == 0 {
        lemma_full_iff_nine(game.board);
        assert(!has_winner(game.board));
    }
}

/// `play` keeps a game well formed, whether the move is accepted or not, and
/// never takes the turn back: an accepted move that leaves the game active
/// adds one, every other call leaves the turn. A game that was started before
/// its first move stays one.
pub proof fn play_keeps_well_formed(game: GameModel, tile: Tile)
    requires
        game.well_formed(),
    ensures
        game.apply(Operation::Play { tile }).well_formed(),
        game.apply(Operation::Play { tile }).players == game.players,
        game.apply(Operation::Play { tile }).turn == game.turn + if game.play(tile) is Ok
            && game.apply(Operation::Play { tile }).is_active() {
            1int
        } else {
            0int
        },
        game.started_first() ==> game.apply(Operation::Play { tile }).started_first(),
{
    if game.play(tile) is Ok {
        let next = place(game.board, tile.row as int, tile.column as int, game.current_sign());
        lemma_place(game.board, tile.row as int, tile.column as int, game.current_sign());
        lemma_full_iff_nine(next);
        if game.turn == 0 {
            assert(!has_winner(next));
        }
    }
}

/// A game that was started before its first move stays well formed and stays
/// such a game through any sequence of operations.
pub proof fn started_first_is_kept(game: GameModel, operations: Seq<Operation>)
    requires
        game.well_formed(),
        game.started_first(),
    ensures
        game.apply_all(operations).well_formed(),
        game.apply_all(operations).started_first(),
    decreases operations.len(),
{
    if operations.len() > 0 {
        let prior = game.apply_all(operations.drop_last());
        started_first_is_kept(game, operations.drop_last());
        match operations.last() {
            Operation::Start { players } => {},
            Operation::Play { tile } => {
                play_keeps_well_formed(prior, tile);
            },
        }
    }
}

/// In a game that was started before its first move: while it is active, one
/// cell is filled for each turn that has elapsed, no line wins and a cell is
/// left; once it is over, the board says why, and the winner of a won game is
/// the participant who moved last.
pub proof fn active_game_has_one_cell_per_elapsed_turn(game: GameModel)
    requires
        game.well_formed(),
        game.started_first(),
    ensures
        game.is_active() ==> filled(game.board) == game.turn - 1,
        game.is_active() ==> !has_winner(game.board) && !is_full(game.board),
        game.state is Tie ==> !has_winner(game.board) && is_full(game.board),
        game.state is Won ==> has_winner(game.board) && game.state->winner == game.current_player(),
        game.turn <= 9,
{
    lemma_full_iff_nine(game.board);
}

/// Along a sequence of accepted moves the game stays well formed, and the
/// move at position `k` is made on turn `game.turn + k`.
pub proof fn legal_moves_count_turns(game: GameModel, moves: Seq<Tile>)
    requires
        game.well_formed(),
        game.all_legal(moves),
    ensures
        game.after_moves(moves).well_formed(),
        game.after_moves(moves).players == game.players,
        game.after_moves(moves).is_active() ==> game.after_moves(moves).turn == game.turn
            + moves.len(),
        moves.len() > 0 ==> game.after_moves(moves.drop_last()).turn == game.turn + moves.len()
            - 1,
    decreases moves.len(),
{
    if moves.len() > 0 {
        let prior = game.after_moves(moves.drop_last());
        legal_moves_count_turns(game, moves.drop_last());
        play_keeps_well_formed(prior, moves.last());
    }
}

/// Turn alternation. In a well-formed game, after a sequence of accepted
/// moves, the cell of the move at position `k` (counted from 0) holds the sign
/// of turn `game.turn + k`. A game that was just started is on turn 1, so its
/// first, third, fifth move wrote `X` and the others `O`.
pub proof fn turn_alternation(game: GameModel, moves: Seq<Tile>, k: int)
    requires
        game.well_formed(),
        game.all_legal(moves),
        0 <= k < moves.len(),
    ensures
        moves[k].in_bounds(),
        game.after_moves(moves).board[moves[k].row as int][moves[k].column as int] == Some(
            sign_of_turn(game.turn + k),
        ),
    decreases moves.len(),
{
    let prior = game.after_moves(moves.drop_last());
    let last = moves.last();
    legal_moves_count_turns(game, moves);
    legal_moves_count_turns(game, moves.drop_last());
    lemma_place(prior.board, last.row as int, last.column as int, prior.current_sign());
    if k < moves.len() - 1 {
        turn_alternation(game, moves.drop_last(), k);
        assert(moves.drop_last()[k] == moves[k]);
    }
}

/// No double start. Once `start` was accepted, a second `start` is refused
/// with `GameAlreadyStarted`, whatever participants it names, and the game is
/// as the first call left it.
pub proof fn no_double_start(game: GameModel, first: Seq<Pubkey>, second: Seq<Pubkey>)
    requires
        game.start(first) is Ok,
    ensures
        game.start(first)->Ok_0.start(second) == Err::<GameModel, TicTacToeError>(
            TicTacToeError::GameAlreadyStarted,
        ),
        game.apply(Operation::Start { players: first }).apply(Operation::Start { players: second })
            == game.apply(Operation::Start { players: first }),
{
}

/// Terminal immutability. On a game that is won or tied every `play` is
/// refused with `GameAlreadyOver`, and no sequence of operations changes
/// anything about a started one.
pub proof fn terminal_immutability(game: GameModel, tile: Tile, operations: Seq<Operation>)
    requires
        !game.is_active(),
    ensures
        game.play(tile) == Err::<GameModel, TicTacToeError>(TicTacToeError::GameAlreadyOver),
        game.is_started() ==> game.apply_all(operations) == game,
    decreases operations.len(),
{
    if operations.len() > 0 {
        terminal_immutability(game, tile, operations.drop_last());
    }
}

/// Occupancy monotonicity, one operation: a cell that holds a sign holds the
/// same sign after any call, accepted or refused.
pub proof fn occupancy_monotonicity_step(game: GameModel, operation: Operation, row: int, column: int)
    requires
        is_grid(game.board),
        0 <= row < 3,
        0 <= column < 3,
        game.board[row][column] is Some,
    ensures
        is_grid(game.apply(operation).board),
        game.apply(operation).board[row][column] == game.board[row][column],
{
    if let Operation::Play { tile } = operation {
        if game.play(tile) is Ok {
            lemma_place(game.board, tile.row as int, tile.column as int, game.current_sign());
        }
    }
}

/// Occupancy monotonicity: a cell that holds a sign holds the same sign after
/// any sequence of operations.
pub proof fn occupancy_monotonicity(game: GameModel, operations: Seq<Operation>, row: int, column: int)
    requires
        is_grid(game.board),
        0 <= row < 3,
        0 <= column < 3,
        game.board[row][column] is Some,
    ensures
        is_grid(game.apply_all(operations).board),
        game.apply_all(operations).board[row][column] == game.board[row][column],
    decreases operations.len(),
{
    if operations.len() > 0 {
        occupancy_monotonicity(game, operations.drop_last(), row, column);
        occupancy_monotonicity_step(
            game.apply_all(operations.drop_last()),
            operations.last(),
            row,
            column,
        );
    }
}

/// Bounds rejection. On an active game a tile whose row or column exceeds 2 is
/// refused with `TileOutOfBounds`; on a finished game the refusal is
/// `GameAlreadyOver`, which is tested first. Either way the game is unchanged.
pub proof fn bounds_rejection(game: GameModel, tile: Tile)
    requires
        tile.row > 2 || tile.column > 2,
    ensures
        game.is_active() ==> game.play(tile) == Err::<GameModel, TicTacToeError>(
            TicTacToeError::TileOutOfBounds,
        ),
        !game.is_active() ==> game.play(tile) == Err::<GameModel, TicTacToeError>(
            TicTacToeError::GameAlreadyOver,
        ),
        game.apply(Operation::Play { tile }) == game,
{
}

/// Occupied-cell rejection. When a move was accepted and the game went on, the
/// same tile played again is refused with `TileAlreadySet`.
pub proof fn occupied_cell_rejection(game: GameModel, tile: Tile)
    requires
        is_grid(game.board),
        game.play(tile) is Ok,
        game.play(tile)->Ok_0.is_active(),
    ensures
        game.play(tile)->Ok_0.play(tile) == Err::<GameModel, TicTacToeError>(
            TicTacToeError::TileAlreadySet,
        ),
{
    lemma_place(game.board, tile.row as int, tile.column as int, game.current_sign());
}

/// A refused operation leaves the game as it was, so whether it is active
/// reads the same before and after.
pub proof fn refused_operation_changes_nothing(game: GameModel, operation: Operation)
    requires
        game.attempt(operation) is Err,
    ensures
        game.apply(operation) == game,
        game.apply(operation).is_active() == game.is_active(),
{
}

} // verus!
