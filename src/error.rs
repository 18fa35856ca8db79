use vstd::prelude::*;

use crate::status::{status_name, Status};

verus! {

/// Why an operation on a game was refused. A refused operation leaves the
/// game unchanged.
#[derive(Debug, Clone, Copy, PartialEq, Eq, Structural)]
pub enum GameError {
    /// The game is in the first status, the operation needs the second.
    IncorrectStatus(Status, Status),
    /// A board was asked for with a width or a height of zero.
    ZeroFieldArea,
    /// A position lies outside the board, or outside the range of `usize`.
    OutOfBounds,
    /// The position already holds a mine.
    AlreadyMined,
    /// The position is already open.
    AlreadyOpened,
    /// The position already holds a flag.
    AlreadyFlagged,
}

/// The message that tells a player why an operation was refused.
pub open spec fn message_of(e: GameError) -> Seq<char> {
    match e {
        GameError::IncorrectStatus(given, required) => "game in status "@ + status_name(given)
            + ", but should be in "@ + status_name(required),
        GameError::ZeroFieldArea => "field area is zero"@,
        GameError::OutOfBounds => "position out of bounds"@,
        GameError::AlreadyMined => "position already have mine"@,
        GameError::AlreadyOpened => "position already opened"@,
        GameError::AlreadyFlagged => "position already have flag"@,
    }
}

impl GameError {
    /// The message that tells a player why an operation was refused.
    pub fn message(&self) -> (r: String)
        ensures
            r@ == message_of(*self),
    {
        match self {
            GameError::IncorrectStatus(given, required) => {
                let mut text = String::from_str("game in status ");
                text.append(given.name());
                text.append(", but should be in ");
                text.append(required.name());
                text
            },
            GameError::ZeroFieldArea => String::from_str("field area is zero"),
            GameError::OutOfBounds => String::from_str("position out of bounds"),
            GameError::AlreadyMined => String::from_str("position already have mine"),
            GameError::AlreadyOpened => String::from_str("position already opened"),
            GameError::AlreadyFlagged => String::from_str("position already have flag"),
        }
    }
}

} // verus!
