use vstd::prelude::*;

verus! {

/// The phase of a game. A game starts in `Configuration`, moves to
/// `InProgress` when started, and ends in `Won` or `Lost`.
#[derive(Debug, Clone, Copy, PartialEq, Eq, Structural)]
pub enum Status {
    Configuration,
    InProgress,
    Won,
    Lost,
}

/// The name of a status, as shown to players.
pub open spec fn status_name(s: Status) -> Seq<char> {
    match s {
        Status::Configuration => "Configuration"@,
        Status::InProgress => "InProgress"@,
        Status::Won => "Won"@,
        Status::Lost => "Lost"@,
    }
}

impl Status {
    /// Whether no further move can change the game.
    pub open spec fn is_terminal(self) -> bool {
        self == Status::Won || self == Status::Lost
    }

    /// The name of this status.
    pub fn name(&self) -> (r: &'static str)
        ensures
            r@ == status_name(*self),
    {
        match self {
            Status::Configuration => "Configuration",
            Status::InProgress => "InProgress",
            Status::Won => "Won",
            Status::Lost => "Lost",
        }
    }
}

} // verus!
