use minesweeper::{GameError, Position};

#[test]
fn get_relative_with_negative() {
    assert_eq!(Position(2, 2).get_relative(-1, -1), Ok(Position(1, 1)));
}

#[test]
fn get_relative_with_positive() {
    assert_eq!(Position(2, 2).get_relative(1, 1), Ok(Position(3, 3)));
}

#[test]
fn get_relative_with_oob_negative() {
    assert_eq!(
        Position(2, 2).get_relative(-100, -100),
        Err(GameError::OutOfBounds)
    );
}

#[test]
fn get_relative_zero_offset() {
    assert_eq!(Position(0, 0).get_relative(0, 0), Ok(Position(0, 0)));
}

#[test]
fn get_relative_one_below_zero() {
    assert_eq!(Position(0, 5).get_relative(-1, 0), Err(GameError::OutOfBounds));
    assert_eq!(Position(5, 0).get_relative(0, -1), Err(GameError::OutOfBounds));
}

#[test]
fn get_relative_past_usize_max() {
    assert_eq!(
        Position(usize::MAX, 0).get_relative(1, 0),
        Err(GameError::OutOfBounds)
    );
    assert_eq!(
        Position(0, usize::MAX - 1).get_relative(0, 1),
        Ok(Position(0, usize::MAX))
    );
}

#[test]
fn get_relative_extreme_offsets() {
    assert_eq!(
        Position(usize::MAX, 3).get_relative(isize::MIN, 0),
        Ok(Position(usize::MAX - (isize::MAX as usize) - 1, 3))
    );
    assert_eq!(
        Position(3, 3).get_relative(isize::MIN, 0),
        Err(GameError::OutOfBounds)
    );
    assert_eq!(
        Position(0, 0).get_relative(isize::MAX, isize::MAX),
        Ok(Position(isize::MAX as usize, isize::MAX as usize))
    );
}
