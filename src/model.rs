use vstd::prelude::*;

use crate::error::GameError;
use crate::position::{relative_of, Position};
use crate::status::Status;

verus! {

/// The abstract state of a game: the board's size, the three sets of
/// positions and the phase.
pub struct GameState {
    pub width: nat,
    pub height: nat,
    pub mines: Set<Position>,
    pub opened: Set<Position>,
    pub flagged: Set<Position>,
    pub status: Status,
}

/// 1 where `b` holds, else 0.
pub open spec fn one_if(b: bool) -> nat {
    if b {
        1
    } else {
        0
    }
}

/// Whether `q` is one of the up to eight cells around `p`.
pub open spec fn adjacent(p: Position, q: Position) -> bool {
    &&& q != p
    &&& -1 <= q.0 - p.0 <= 1
    &&& -1 <= q.1 - p.1 <= 1
}

impl GameState {
    /// Whether `p` lies on the board.
    pub open spec fn in_bounds(self, p: Position) -> bool {
        p.0 < self.width && p.1 < self.height
    }

    /// Whether every position of `s` lies on the board.
    pub open spec fn all_in_bounds(self, s: Set<Position>) -> bool {
        forall|p: Position| #[trigger] s.contains(p) ==> self.in_bounds(p)
    }

    /// The number of cells of the board.
    pub open spec fn area(self) -> nat {
        self.width * self.height
    }

    /// The number of cells accounted for, opened or flagged.
    pub open spec fn cleared(self) -> nat {
        self.opened.len() + self.flagged.len()
    }

    /// What holds of every game during its whole life.
    pub open spec fn wf(self) -> bool {
        &&& self.width > 0
        &&& self.height > 0
        &&& self.mines.finite()
        &&& self.opened.finite()
        &&& self.flagged.finite()
        &&& self.all_in_bounds(self.mines)
        &&& self.all_in_bounds(self.opened)
        &&& self.all_in_bounds(self.flagged)
        &&& self.opened.disjoint(self.flagged)
        &&& self.opened.disjoint(self.mines)
        &&& self.status == Status::Configuration ==> self.opened.is_empty()
            && self.flagged.is_empty()
        &&& self.status == Status::Won ==> self.cleared() == self.area()
    }

    /// A fresh game: the given size, no positions, in configuration.
    pub open spec fn fresh(width: nat, height: nat) -> GameState {
        GameState {
            width,
            height,
            mines: Set::empty(),
            opened: Set::empty(),
            flagged: Set::empty(),
            status: Status::Configuration,
        }
    }

    /// What placing a mine at `p` returns.
    pub open spec fn mine_outcome(self, p: Position) -> Result<(), GameError> {
        if self.status != Status::Configuration {
            Err(GameError::IncorrectStatus(self.status, Status::Configuration))
        } else if !self.in_bounds(p) {
            Err(GameError::OutOfBounds)
        } else if self.mines.contains(p) {
            Err(GameError::AlreadyMined)
        } else {
            Ok(())
        }
    }

    /// The state after placing a mine at `p`.
    pub open spec fn after_mine(self, p: Position) -> GameState {
        if self.mine_outcome(p) is Ok {
            GameState { mines: self.mines.insert(p), ..self }
        } else {
            self
        }
    }

    /// What starting the game returns.
    pub open spec fn start_outcome(self) -> Result<(), GameError> {
        if self.status != Status::Configuration {
            Err(GameError::IncorrectStatus(self.status, Status::Configuration))
        } else {
            Ok(())
        }
    }

    /// The state after starting the game.
    pub open spec fn after_start(self) -> GameState {
        if self.start_outcome() is Ok {
            GameState { status: Status::InProgress, ..self }
        } else {
            self
        }
    }

    /// The check shared by every move of play: the game must be in progress
    /// and `p` on the board.
    pub open spec fn play_check(self, p: Position) -> Result<(), GameError> {
        if self.status != Status::InProgress {
            Err(GameError::IncorrectStatus(self.status, Status::InProgress))
        } else if !self.in_bounds(p) {
            Err(GameError::OutOfBounds)
        } else {
            Ok(())
        }
    }

    /// What opening `p` returns.
    pub open spec fn open_outcome(self, p: Position) -> Result<(), GameError> {
        if self.play_check(p) is Err {
            self.play_check(p)
        } else if self.opened.contains(p) {
            Err(GameError::AlreadyOpened)
        } else {
            Ok(())
        }
    }

    /// The status after `opened` and `flagged` were updated by a move: won
    /// once every cell is accounted for.
    pub open spec fn status_after_move(self, opened: Set<Position>, flagged: Set<Position>) -> Status {
        if opened.len() + flagged.len() == self.area() {
            Status::Won
        } else {
            self.status
        }
    }

    /// The state after opening `p`. A flag on `p` is taken away first. A
    /// mine at `p` loses the game and leaves `p` out of the opened set;
    /// otherwise `p` is opened and the game is won once every cell is
    /// accounted for.
    pub open spec fn after_open(self, p: Position) -> GameState {
        if self.open_outcome(p) is Err {
            self
        } else if self.mines.contains(p) {
            GameState { flagged: self.flagged.remove(p), status: Status::Lost, ..self }
        } else {
            let opened = self.opened.insert(p);
            let flagged = self.flagged.remove(p);
            GameState {
                opened,
                flagged,
                status: self.status_after_move(opened, flagged),
                ..self
            }
        }
    }

    /// What flagging `p` returns.
    pub open spec fn flag_outcome(self, p: Position) -> Result<(), GameError> {
        if self.play_check(p) is Err {
            self.play_check(p)
        } else if self.opened.contains(p) {
            Err(GameError::AlreadyOpened)
        } else if self.flagged.contains(p) {
            Err(GameError::AlreadyFlagged)
        } else {
            Ok(())
        }
    }

    /// The state after flagging `p`: the flag is added, mine or not, and the
    /// game is won once every cell is accounted for.
    pub open spec fn after_flag(self, p: Position) -> GameState {
        if self.flag_outcome(p) is Err {
            self
        } else {
            let flagged = self.flagged.insert(p);
            GameState {
                flagged,
                status: self.status_after_move(self.opened, flagged),
                ..self
            }
        }
    }

    /// Whether the neighbour of `p` at offset `(dx, dy)` exists, lies on the
    /// board and holds a mine.
    pub open spec fn mine_near(self, p: Position, dx: int, dy: int) -> bool {
        match relative_of(p, dx, dy) {
            Ok(q) => self.in_bounds(q) && self.mines.contains(q),
            Err(_) => false,
        }
    }

    /// The number of mines among the eight neighbours of `p`.
    pub open spec fn proximity(self, p: Position) -> nat {
        one_if(self.mine_near(p, -1, -1)) + one_if(self.mine_near(p, -1, 0)) + one_if(
            self.mine_near(p, -1, 1),
        ) + one_if(self.mine_near(p, 0, -1)) + one_if(self.mine_near(p, 0, 1)) + one_if(
            self.mine_near(p, 1, -1),
        ) + one_if(self.mine_near(p, 1, 0)) + one_if(self.mine_near(p, 1, 1))
    }

    /// What counting the mines around `p` returns.
    pub open spec fn proximity_outcome(self, p: Position) -> Result<usize, GameError> {
        if self.play_check(p) is Err {
            Err(self.play_check(p)->Err_0)
        } else {
            Ok(self.proximity(p) as usize)
        }
    }
}

} // verus!
