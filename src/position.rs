use vstd::prelude::*;

use crate::error::GameError;

verus! {

/// A cell of a board: column, then row.
#[derive(Debug, Clone, Copy, PartialEq, Eq, Hash, Structural)]
pub struct Position(pub usize, pub usize);

/// Whether an integer is a valid coordinate.
pub open spec fn fits_usize(v: int) -> bool {
    0 <= v <= usize::MAX
}

/// The position shifted by `(dx, dy)`, or `OutOfBounds` where a coordinate
/// would leave the range of `usize`.
pub open spec fn relative_of(p: Position, dx: int, dy: int) -> Result<Position, GameError> {
    if fits_usize(p.0 + dx) && fits_usize(p.1 + dy) {
        Ok(Position((p.0 + dx) as usize, (p.1 + dy) as usize))
    } else {
        Err(GameError::OutOfBounds)
    }
}

/// One coordinate moved by a signed offset, or `None` where the result
/// would leave the range of `usize`.
fn shift(c: usize, d: isize) -> (r: Option<usize>)
    ensures
        r == (if fits_usize(c + d) { Some((c + d) as usize) } else { None::<usize> }),
{
    if d < 0 {
        let magnitude: usize = ((-(d + 1)) as usize) + 1;
        c.checked_sub(magnitude)
    } else {
        c.checked_add(d as usize)
    }
}

impl Position {
    /// The position shifted by `x_dif` columns and `y_dif` rows. Fails with
    /// `OutOfBounds` where a coordinate would become negative or exceed
    /// `usize::MAX`; no board is consulted.
    pub fn get_relative(&self, x_dif: isize, y_dif: isize) -> (r: Result<Position, GameError>)
        ensures
            r == relative_of(*self, x_dif as int, y_dif as int),
    {
        let x = shift(self.0, x_dif);
        let y = shift(self.1, y_dif);
        match (x, y) {
            (Some(x), Some(y)) => Ok(Position(x, y)),
            _ => Err(GameError::OutOfBounds),
        }
    }
}

} // verus!
