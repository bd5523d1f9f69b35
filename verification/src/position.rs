//! Grid cells and continuous board-space points.

use vstd::prelude::*;

verus! {

/// A discrete cell address on the board: row and column, counted from the
/// most negative corner. Identity is structural; the type itself does not
/// restrict the range, the owning board does.
#[derive(Debug, Copy, Clone, PartialEq, Eq, Structural)]
pub struct Position {
    pub row: usize,
    pub col: usize,
}

impl Position {
    pub fn new(row: usize, col: usize) -> (r: Self)
        ensures
            r.row == row,
            r.col == col,
    {
        Position { row, col }
    }
}

/// A point in continuous board space, measured in half-units: each
/// coordinate is twice its value in tile units, so that every tile center
/// is a whole number for every tile length. The presentation layer halves
/// the coordinates when it draws.
#[derive(Debug, Copy, Clone, PartialEq, Eq, Structural)]
pub struct Point {
    pub x: i64,
    pub y: i64,
}

impl Point {
    pub fn new(x: i64, y: i64) -> (r: Self)
        ensures
            r.x == x,
            r.y == y,
    {
        Point { x, y }
    }
}

} // verus!
