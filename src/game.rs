use vstd::prelude::*;

use crate::error::GameError;
use crate::model::GameState;
use crate::position::Position;
use crate::status::Status;

verus! {

broadcast use vstd::seq_lib::seq_to_set_is_finite;

/// Index of `p` in `v`, if it is there.
fn find(v: &Vec<Position>, p: &Position) -> (r: Option<usize>)
    ensures
        match r {
            Some(i) => i < v.len() && v@[i as int] == *p,
            None => !v@.contains(*p),
        },
{
    let mut i: usize = 0;
    while i < v.len()
        invariant
            i <= v.len(),
            forall|j: int| 0 <= j < i ==> v@[j] != *p,
        decreases v.len() - i,
    {
        if v[i] == *p {
            return Some(i);
        }
        i = i + 1;
    }
    None
}

/// Whether `p` is among the entries of `v`.
fn holds(v: &Vec<Position>, p: &Position) -> (r: bool)
    ensures
        r == v@.to_set().contains(*p),
{
    find(v, p).is_some()
}

/// Adds `p`, which is not yet in `v`, at the end of `v`.
fn insert_new(v: &mut Vec<Position>, p: Position)
    requires
        old(v)@.no_duplicates(),
        !old(v)@.contains(p),
    ensures
        final(v)@.no_duplicates(),
        final(v)@.to_set() == old(v)@.to_set().insert(p),
        final(v)@.len() == old(v)@.len() + 1,
{
    let ghost before = v@;
    v.push(p);
    proof {
        assert(v@ == before.push(p));
        assert forall|x: Position| v@.contains(x) <==> before.contains(x) || x == p by {
            if v@.contains(x) {
                let j = choose|j: int| 0 <= j < v@.len() && v@[j] == x;
                if j < before.len() {
                    assert(before[j] == x);
                }
            }
            if before.contains(x) {
                let j = choose|j: int| 0 <= j < before.len() && before[j] == x;
                assert(v@[j] == x);
            }
            if x == p {
                assert(v@[before.len() as int] == x);
            }
        }
        assert(v@.to_set() =~= before.to_set().insert(p));
    }
}

/// Takes the entry at index `i` out of `v`.
fn drop_at(v: &mut Vec<Position>, i: usize)
    requires
        old(v)@.no_duplicates(),
        i < old(v)@.len(),
    ensures
        final(v)@.no_duplicates(),
        final(v)@.to_set() == old(v)@.to_set().remove(old(v)@[i as int]),
{
    let ghost before = v@;
    let ghost gone = v@[i as int];
    v.remove(i);
    proof {
        assert(v@ == before.remove(i as int));
        assert forall|a: int, b: int| 0 <= a < b < v@.len() implies v@[a] != v@[b] by {
            let ia = if a < i { a } else { a + 1 };
            let ib = if b < i { b } else { b + 1 };
            assert(v@[a] == before[ia] && v@[b] == before[ib]);
        }
        assert forall|x: Position| v@.contains(x) <==> before.contains(x) && x != gone by {
            if v@.contains(x) {
                let j = choose|j: int| 0 <= j < v@.len() && v@[j] == x;
                let k = if j < i { j } else { j + 1 };
                assert(before[k] == x);
            }
            if before.contains(x) && x != gone {
                let k = choose|k: int| 0 <= k < before.len() && before[k] == x;
                let j = if k < i { k } else { k - 1 };
                assert(v@[j] == x);
            }
        }
        assert(v@.to_set() =~= before.to_set().remove(gone));
    }
}

/// A game on a board of `width` columns and `height` rows: where the mines
/// lie, which cells are open, which are flagged, and the phase of play.
pub struct Game {
    width: usize,
    height: usize,
    mine_positions: Vec<Position>,
    open_positions: Vec<Position>,
    flag_positions: Vec<Position>,
    status: Status,
}

impl View for Game {
    type V = GameState;

    closed spec fn view(&self) -> GameState {
        GameState {
            width: self.width as nat,
            height: self.height as nat,
            mines: self.mine_positions@.to_set(),
            opened: self.open_positions@.to_set(),
            flagged: self.flag_positions@.to_set(),
            status: self.status,
        }
    }
}

impl Game {
    /// Whether each of the three lists holds every position once at most.
    pub closed spec fn entries_unique(&self) -> bool {
        &&& self.mine_positions@.no_duplicates()
        &&& self.open_positions@.no_duplicates()
        &&& self.flag_positions@.no_duplicates()
    }

    /// The game is well formed.
    pub open spec fn wf(&self) -> bool {
        self@.wf() && self.entries_unique()
    }

    /// Whether every cell is now accounted for.
    fn all_cleared(&self) -> (r: bool)
        requires
            self.entries_unique(),
        ensures
            r == (self@.cleared() == self@.area()),
    {
        proof {
            self.open_positions@.unique_seq_to_set();
            self.flag_positions@.unique_seq_to_set();
            let w = self.width as int;
            let h = self.height as int;
            assert(w * h <= usize::MAX as int * usize::MAX as int) by (nonlinear_arith)
                requires
                    0 <= w <= usize::MAX,
                    0 <= h <= usize::MAX,
            ;
        }
        (self.open_positions.len() as u128) + (self.flag_positions.len() as u128) == (
        self.width as u128) * (self.height as u128)
    }

    /// A game on a board of `width` by `height` cells, in configuration and
    /// with no mines, open cells or flags. Fails with `ZeroFieldArea` where a
    /// dimension is zero.
    pub fn new(width: usize, height: usize) -> (r: Result<Game, GameError>)
        ensures
            width == 0 || height == 0 ==> r == Err::<Game, GameError>(GameError::ZeroFieldArea),
            width > 0 && height > 0 ==> r is Ok && r->Ok_0.wf() && r->Ok_0@ == GameState::fresh(
                width as nat,
                height as nat,
            ),
    {
        if width == 0 || height == 0 {
            return Err(GameError::ZeroFieldArea);
        }
        let game = Game {
            width,
            height,
            mine_positions: Vec::new(),
            open_positions: Vec::new(),
            flag_positions: Vec::new(),
            status: Status::Configuration,
        };
        assert(game@.mines =~= Set::empty());
        assert(game@.opened =~= Set::empty());
        assert(game@.flagged =~= Set::empty());
        Ok(game)
    }

    /// Whether `position` lies on the board.
    pub fn is_in_bounds(&self, position: &Position) -> (r: bool)
        ensures
            r == self@.in_bounds(*position),
    {
        position.0 < self.width && position.1 < self.height
    }

    /// Places a mine at `position`. Only during configuration, on the board,
    /// and where no mine lies yet; the game is unchanged when it fails.
    pub fn mine(&mut self, position: Position) -> (r: Result<(), GameError>)
        requires
            old(self).wf(),
        ensures
            final(self).wf(),
            r == old(self)@.mine_outcome(position),
            final(self)@ == old(self)@.after_mine(position),
    {
        if self.status != Status::Configuration {
            return Err(GameError::IncorrectStatus(self.status, Status::Configuration));
        }
        if !self.is_in_bounds(&position) {
            return Err(GameError::OutOfBounds);
        }
        if holds(&self.mine_positions, &position) {
            return Err(GameError::AlreadyMined);
        }
        insert_new(&mut self.mine_positions, position);
        assert(self@ == old(self)@.after_mine(position));
        Ok(())
    }

    /// Ends configuration and starts play. Fails outside configuration, with
    /// the game unchanged.
    pub fn start(&mut self) -> (r: Result<(), GameError>)
        requires
            old(self).wf(),
        ensures
            final(self).wf(),
            r == old(self)@.start_outcome(),
            final(self)@ == old(self)@.after_start(),
    {
        if self.status != Status::Configuration {
            return Err(GameError::IncorrectStatus(self.status, Status::Configuration));
        }
        self.status = Status::InProgress;
        Ok(())
    }

    /// Whether a move of play at `position` is allowed so far: the game is in
    /// progress and `position` lies on the board.
    fn check_play(&self, position: &Position) -> (r: Result<(), GameError>)
        requires
            self.wf(),
        ensures
            r == self@.play_check(*position),
    {
        if self.status != Status::InProgress {
            return Err(GameError::IncorrectStatus(self.status, Status::InProgress));
        }
        if !self.is_in_bounds(position) {
            return Err(GameError::OutOfBounds);
        }
        Ok(())
    }

    /// Opens `position`. A flag there is removed first. A mine there loses
    /// the game; otherwise the cell is opened, and the game is won once every
    /// cell is opened or flagged. Fails outside play, off the board, or on an
    /// open cell, with the game unchanged.
    pub fn open(&mut self, position: Position) -> (r: Result<(), GameError>)
        requires
            old(self).wf(),
        ensures
            final(self).wf(),
            r == old(self)@.open_outcome(position),
            final(self)@ == old(self)@.after_open(position),
    {
        let checked = self.check_play(&position);
        if checked.is_err() {
            return checked;
        }
        if holds(&self.open_positions, &position) {
            return Err(GameError::AlreadyOpened);
        }
        let ghost start = self@;
        if let Some(i) = find(&self.flag_positions, &position) {
            drop_at(&mut self.flag_positions, i);
        } else {
            assert(self.flag_positions@.to_set() =~= start.flagged.remove(position));
        }
        if holds(&self.mine_positions, &position) {
            self.status = Status::Lost;
            assert(self@ == start.after_open(position));
            return Ok(());
        }
        insert_new(&mut self.open_positions, position);
        if self.all_cleared() {
            self.status = Status::Won;
        }
        assert(self@ == start.after_open(position));
        Ok(())
    }

    /// Flags `position`, mine or not; the game is won once every cell is
    /// opened or flagged. Fails outside play, off the board, on an open cell
    /// or on a flagged one, with the game unchanged.
    pub fn flag(&mut self, position: Position) -> (r: Result<(), GameError>)
        requires
            old(self).wf(),
        ensures
            final(self).wf(),
            r == old(self)@.flag_outcome(position),
            final(self)@ == old(self)@.after_flag(position),
    {
        let checked = self.check_play(&position);
        if checked.is_err() {
            return checked;
        }
        if holds(&self.open_positions, &position) {
            return Err(GameError::AlreadyOpened);
        }
        if holds(&self.flag_positions, &position) {
            return Err(GameError::AlreadyFlagged);
        }
        let ghost start = self@;
        insert_new(&mut self.flag_positions, position);
        if self.all_cleared() {
            self.status = Status::Won;
        }
        assert(self@ == start.after_flag(position));
        Ok(())
    }

    /// Whether the neighbour of `position` at offset `(dx, dy)` exists, lies
    /// on the board and holds a mine.
    fn mine_near(&self, position: &Position, dx: isize, dy: isize) -> (r: bool)
        requires
            self.wf(),
        ensures
            r == self@.mine_near(*position, dx as int, dy as int),
    {
        match position.get_relative(dx, dy) {
            Ok(q) => self.is_in_bounds(&q) && holds(&self.mine_positions, &q),
            Err(_) => false,
        }
    }

    /// The number of mines among the up to eight neighbours of `position`.
    /// Neighbours that would fall below coordinate zero or off the board are
    /// skipped. Fails outside play or off the board.
    pub fn check_proximity(&self, position: Position) -> (r: Result<usize, GameError>)
        requires
            self.wf(),
        ensures
            r == self@.proximity_outcome(position),
    {
        let checked = self.check_play(&position);
        if let Err(e) = checked {
            return Err(e);
        }
        let mut count: usize = 0;
        if self.mine_near(&position, -1, -1) {
            count = count + 1;
        }
        if self.mine_near(&position, -1, 0) {
            count = count + 1;
        }
        if self.mine_near(&position, -1, 1) {
            count = count + 1;
        }
        if self.mine_near(&position, 0, -1) {
            count = count + 1;
        }
        if self.mine_near(&position, 0, 1) {
            count = count + 1;
        }
        if self.mine_near(&position, 1, -1) {
            count = count + 1;
        }
        if self.mine_near(&position, 1, 0) {
            count = count + 1;
        }
        if self.mine_near(&position, 1, 1) {
            count = count + 1;
        }
        Ok(count)
    }

    /// The number of columns.
    pub fn width(&self) -> (r: usize)
        ensures
            r == self@.width,
    {
        self.width
    }

    /// The number of rows.
    pub fn height(&self) -> (r: usize)
        ensures
            r == self@.height,
    {
        self.height
    }

    /// The phase of play.
    pub fn status(&self) -> (r: Status)
        ensures
            r == self@.status,
    {
        self.status
    }

    /// The mined positions, each once.
    pub fn mine_positions(&self) -> (r: &Vec<Position>)
        requires
            self.wf(),
        ensures
            r@.to_set() == self@.mines,
            r@.no_duplicates(),
    {
        &self.mine_positions
    }

    /// The opened positions, each once.
    pub fn open_positions(&self) -> (r: &Vec<Position>)
        requires
            self.wf(),
        ensures
            r@.to_set() == self@.opened,
            r@.no_duplicates(),
    {
        &self.open_positions
    }

    /// The flagged positions, each once.
    pub fn flag_positions(&self) -> (r: &Vec<Position>)
        requires
            self.wf(),
        ensures
            r@.to_set() == self@.flagged,
            r@.no_duplicates(),
    {
        &self.flag_positions
    }
}

} // verus!
