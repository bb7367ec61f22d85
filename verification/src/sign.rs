//! The two markers that players place on the board.

use vstd::prelude::*;

verus! {

/// A player's marker.
#[derive(Clone, Copy, Debug, PartialEq, Eq, Structural)]
pub enum Sign {
    X,
    O,
}

impl Sign {
    /// The marker that belongs to the player at `index`, as a specification.
    pub open spec fn of_index(index: int) -> Option<Sign> {
        if index == 0 {
            Some(Sign::X)
        } else if index == 1 {
            Some(Sign::O)
        } else {
            None
        }
    }

    /// The marker with the given ordinal: `X` for 0, `O` for 1, none otherwise.
    pub fn from_usize(n: usize) -> (sign: Option<Sign>)
        ensures
            sign == Sign::of_index(n as int),
    {
        if n == 0 {
            Some(Sign::X)
        } else if n == 1 {
            Some(Sign::O)
        } else {
            None
        }
    }
}

} // verus!
