//! Sequences of operations on a game, for statements about every history.

use vstd::prelude::*;
use anchor_lang::prelude::Pubkey;
use crate::error::TicTacToeError;
use crate::model::GameModel;
use crate::tile::Tile;

verus! {

/// One call on a game.
pub enum Operation {
    Start { players: Seq<Pubkey> },
    Play { tile: Tile },
}

impl GameModel {
    /// What the call returns: the next game, or the reason for refusing.
    pub open spec fn attempt(self, operation: Operation) -> Result<GameModel, TicTacToeError> {
        match operation {
            Operation::Start { players } => self.start(players),
            Operation::Play { tile } => self.play(tile),
        }
    }

    /// The game after the call: the next game, or the same game if the call
    /// was refused.
    pub open spec fn apply(self, operation: Operation) -> GameModel {
        match self.attempt(operation) {
            Ok(next) => next,
            Err(_) => self,
        }
    }

    /// The game after all of `operations`, in order.
    pub open spec fn apply_all(self, operations: Seq<Operation>) -> GameModel
        decreases operations.len(),
    {
        if operations.len() == 0 {
            self
        } else {
            self.apply_all(operations.drop_last()).apply(operations.last())
        }
    }

    /// The game after `play` was called with each of `moves`, in order.
    pub open spec fn after_moves(self, moves: Seq<Tile>) -> GameModel
        decreases moves.len(),
    {
        if moves.len() == 0 {
            self
        } else {
            self.after_moves(moves.drop_last()).apply(Operation::Play { tile: moves.last() })
        }
    }

    /// Every one of `moves` is accepted when they are played in order.
    pub open spec fn all_legal(self, moves: Seq<Tile>) -> bool
        decreases moves.len(),
    {
        moves.len() == 0 || {
            &&& self.all_legal(moves.drop_last())
            &&& self.after_moves(moves.drop_last()).play(moves.last()) is Ok
        }
    }
}

} // verus!
