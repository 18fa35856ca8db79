use vstd::prelude::*;

use crate::error::GameError;
use crate::model::{adjacent, one_if, GameState};
use crate::position::{relative_of, Position};
use crate::status::Status;

verus! {

/// Placing a mine on a free cell of the board during configuration
/// succeeds and adds exactly that one position to the mines; placing it
/// there a second time fails with `AlreadyMined`.
pub proof fn lemma_mine_twice(g: GameState, p: Position)
    requires
        g.wf(),
        g.status == Status::Configuration,
        g.in_bounds(p),
        !g.mines.contains(p),
    ensures
        g.mine_outcome(p) is Ok,
        g.after_mine(p).mines == g.mines.insert(p),
        g.after_mine(p).mines.len() == g.mines.len() + 1,
        g.after_mine(p).mine_outcome(p) == Err::<(), GameError>(GameError::AlreadyMined),
        g.after_mine(p).after_mine(p) == g.after_mine(p),
{
}

/// Once a game has been started, placing a mine anywhere fails with
/// `IncorrectStatus(InProgress, Configuration)` and the mines stay as they
/// were.
pub proof fn lemma_no_mine_after_start(g: GameState, p: Position)
    requires
        g.wf(),
        g.status == Status::Configuration,
    ensures
        g.start_outcome() is Ok,
        g.after_start().mine_outcome(p) == Err::<(), GameError>(
            GameError::IncorrectStatus(Status::InProgress, Status::Configuration),
        ),
        g.after_start().after_mine(p).mines == g.mines,
{
}

/// Before the game is started, opening or flagging any position fails with
/// `IncorrectStatus(Configuration, InProgress)` and changes nothing.
pub proof fn lemma_no_play_before_start(g: GameState, p: Position)
    requires
        g.wf(),
        g.status == Status::Configuration,
    ensures
        g.open_outcome(p) == Err::<(), GameError>(
            GameError::IncorrectStatus(Status::Configuration, Status::InProgress),
        ),
        g.flag_outcome(p) == Err::<(), GameError>(
            GameError::IncorrectStatus(Status::Configuration, Status::InProgress),
        ),
        g.after_open(p) == g,
        g.after_flag(p) == g,
{
}

/// Opening a mined cell during play succeeds, loses the game, and does not
/// add the cell to the opened positions.
pub proof fn lemma_open_mine_loses(g: GameState, p: Position)
    requires
        g.wf(),
        g.status == Status::InProgress,
        g.mines.contains(p),
    ensures
        g.open_outcome(p) is Ok,
        g.after_open(p).status == Status::Lost,
        !g.after_open(p).opened.contains(p),
        g.after_open(p).opened == g.opened,
{
}

/// Opening a flagged cell without a mine during play succeeds, takes the
/// flag away and opens the cell.
pub proof fn lemma_open_flagged(g: GameState, p: Position)
    requires
        g.wf(),
        g.status == Status::InProgress,
        g.flagged.contains(p),
        !g.mines.contains(p),
    ensures
        g.open_outcome(p) is Ok,
        g.after_open(p).flagged == g.flagged.remove(p),
        g.after_open(p).opened == g.opened.insert(p),
        !g.after_open(p).flagged.contains(p),
        g.after_open(p).opened.contains(p),
{
}

/// During play, counting the mines around a position on the board never
/// fails, and neighbours that are missing add nothing: those left of column
/// zero, above row zero, right of the last column and below the last row.
pub proof fn lemma_proximity_at_edges(g: GameState, p: Position)
    requires
        g.wf(),
        g.status == Status::InProgress,
        g.in_bounds(p),
    ensures
        g.proximity_outcome(p) == Ok::<usize, GameError>(g.proximity(p) as usize),
        p.0 == 0 ==> !g.mine_near(p, -1, -1) && !g.mine_near(p, -1, 0) && !g.mine_near(p, -1, 1),
        p.1 == 0 ==> !g.mine_near(p, -1, -1) && !g.mine_near(p, 0, -1) && !g.mine_near(p, 1, -1),
        p.0 + 1 == g.width ==> !g.mine_near(p, 1, -1) && !g.mine_near(p, 1, 0) && !g.mine_near(
            p,
            1,
            1,
        ),
        p.1 + 1 == g.height ==> !g.mine_near(p, -1, 1) && !g.mine_near(p, 0, 1) && !g.mine_near(
            p,
            1,
            1,
        ),
{
}

/// Status only moves forward: no move brings a game back to configuration,
/// a finished game stays as it is, and once configuration is over the mines
/// never change.
pub proof fn lemma_status_moves_forward(g: GameState, p: Position)
    requires
        g.wf(),
    ensures
        g.status != Status::Configuration ==> {
            &&& g.after_mine(p) == g
            &&& g.after_start() == g
            &&& g.after_open(p).status != Status::Configuration
            &&& g.after_flag(p).status != Status::Configuration
            &&& g.after_open(p).mines == g.mines
            &&& g.after_flag(p).mines == g.mines
        },
        g.status.is_terminal() ==> {
            &&& g.after_open(p) == g
            &&& g.after_flag(p) == g
        },
{
}

/// The mine at offset `(dx, dy)` from `p`, as a set of at most one position.
spec fn mine_hit(g: GameState, p: Position, dx: int, dy: int) -> Set<Position> {
    if g.mine_near(p, dx, dy) {
        Set::empty().insert(Position((p.0 + dx) as usize, (p.1 + dy) as usize))
    } else {
        Set::empty()
    }
}

/// A hit holds at most the one neighbour at its offset, and only if it is mined.
proof fn lemma_mine_hit(g: GameState, p: Position, dx: int, dy: int)
    ensures
        mine_hit(g, p, dx, dy).finite(),
        mine_hit(g, p, dx, dy).len() == one_if(g.mine_near(p, dx, dy)),
        forall|q: Position| #[trigger]
            mine_hit(g, p, dx, dy).contains(q) ==> q.0 == p.0 + dx && q.1 == p.1 + dy,
{
}

/// Adds `b` to `a`, which share no position, and counts the result.
proof fn lemma_join(a: Set<Position>, b: Set<Position>)
    requires
        a.finite(),
        b.finite(),
        a.disjoint(b),
    ensures
        (a + b).finite(),
        (a + b).len() == a.len() + b.len(),
{
    vstd::set_lib::lemma_set_disjoint_lens(a, b);
}

/// The number of mines counted around any position is the number of mines
/// that lie in the cells adjacent to it: cells that are missing at an edge or
/// a corner of the board count for nothing.
pub proof fn lemma_proximity_counts_adjacent_mines(g: GameState, p: Position)
    requires
        g.wf(),
    ensures
        g.proximity(p) == g.mines.filter(|q: Position| adjacent(p, q)).len(),
{
    let h1 = mine_hit(g, p, -1, -1);
    let h2 = mine_hit(g, p, -1, 0);
    let h3 = mine_hit(g, p, -1, 1);
    let h4 = mine_hit(g, p, 0, -1);
    let h5 = mine_hit(g, p, 0, 1);
    let h6 = mine_hit(g, p, 1, -1);
    let h7 = mine_hit(g, p, 1, 0);
    let h8 = mine_hit(g, p, 1, 1);
    lemma_mine_hit(g, p, -1, -1);
    lemma_mine_hit(g, p, -1, 0);
    lemma_mine_hit(g, p, -1, 1);
    lemma_mine_hit(g, p, 0, -1);
    lemma_mine_hit(g, p, 0, 1);
    lemma_mine_hit(g, p, 1, -1);
    lemma_mine_hit(g, p, 1, 0);
    lemma_mine_hit(g, p, 1, 1);
    let u2 = h1 + h2;
    lemma_join(h1, h2);
    let u3 = u2 + h3;
    lemma_join(u2, h3);
    let u4 = u3 + h4;
    lemma_join(u3, h4);
    let u5 = u4 + h5;
    lemma_join(u4, h5);
    let u6 = u5 + h6;
    lemma_join(u5, h6);
    let u7 = u6 + h7;
    lemma_join(u6, h7);
    let u8 = u7 + h8;
    lemma_join(u7, h8);
    let near = g.mines.filter(|q: Position| adjacent(p, q));
    assert forall|q: Position| near.contains(q) <==> u8.contains(q) by {
        if near.contains(q) {
            let dx = q.0 - p.0;
            let dy = q.1 - p.1;
            assert(relative_of(p, dx, dy) == Ok::<Position, GameError>(q));
            assert(g.mine_near(p, dx, dy));
        }
    }
    assert(near =~= u8);
}

} // verus!
