//! The arena grid: discrete positions and bounds checking.

use vstd::prelude::*;

verus! {

/// A cell of the arena grid: an integer coordinate pair, compared by value.
#[derive(Clone, Copy, PartialEq, Eq, Structural, Debug)]
pub struct Position {
    pub x: i32,
    pub y: i32,
}

/// Whether `pos` lies inside an arena of `width` by `height` cells.
pub open spec fn in_bounds_spec(pos: Position, width: int, height: int) -> bool {
    0 <= pos.x < width && 0 <= pos.y < height
}

/// Bounds check: true iff `0 <= x < width` and `0 <= y < height`.
pub fn in_bounds(pos: Position, width: i32, height: i32) -> (r: bool)
    ensures
        r == in_bounds_spec(pos, width as int, height as int),
{
    pos.x >= 0 && pos.x < width && pos.y >= 0 && pos.y < height
}

} // verus!
