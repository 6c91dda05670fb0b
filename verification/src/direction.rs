//! Headings and the input mapper: raw key state becomes a validated heading,
//! with 180-degree reversals rejected.

use vstd::prelude::*;

verus! {

/// A heading on the grid. The coordinate convention has y increasing upward:
/// `Up` increases y, `Down` decreases y, `Left` decreases x, `Right`
/// increases x.
#[derive(Clone, Copy, PartialEq, Eq, Structural, Debug)]
pub enum Direction {
    Left,
    Up,
    Right,
    Down,
}

/// The 180-degree reversal of a heading.
pub open spec fn opposite_spec(d: Direction) -> Direction {
    match d {
        Direction::Left => Direction::Right,
        Direction::Right => Direction::Left,
        Direction::Up => Direction::Down,
        Direction::Down => Direction::Up,
    }
}

impl Direction {
    /// The 180-degree reversal of this heading.
    pub fn opposite(&self) -> (r: Direction)
        ensures
            r == opposite_spec(*self),
    {
        match self {
            Direction::Left => Direction::Right,
            Direction::Right => Direction::Left,
            Direction::Up => Direction::Down,
            Direction::Down => Direction::Up,
        }
    }
}

/// The heading after one input-sampling step: no request keeps the current
/// heading, a request for the exact reversal is rejected, any other request
/// takes effect.
pub open spec fn update_direction_spec(requested: Option<Direction>, current: Direction) -> Direction {
    match requested {
        Option::Some(d) => if d == opposite_spec(current) {
            current
        } else {
            d
        },
        Option::None => current,
    }
}

/// Validated heading update. A requested reversal of the current heading is
/// rejected and the current heading is kept, so the snake can never turn
/// back onto its own neck in a single step.
pub fn update_direction(requested: Option<Direction>, current: Direction) -> (r: Direction)
    ensures
        r == update_direction_spec(requested, current),
        requested is None ==> r == current,
        requested matches Some(d) ==> r == (if d == opposite_spec(current) {
            current
        } else {
            d
        }),
{
    match requested {
        Option::Some(d) => {
            if d == current.opposite() {
                current
            } else {
                d
            }
        },
        Option::None => current,
    }
}

/// The request derived from the set of held direction keys, under the fixed
/// priority Left > Down > Up > Right; no held key means no request.
pub open spec fn requested_direction_spec(left: bool, down: bool, up: bool, right: bool) -> Option<
    Direction,
> {
    if left {
        Option::Some(Direction::Left)
    } else if down {
        Option::Some(Direction::Down)
    } else if up {
        Option::Some(Direction::Up)
    } else if right {
        Option::Some(Direction::Right)
    } else {
        Option::None
    }
}

/// Maps the currently held direction keys to at most one requested heading.
/// When several keys are held at once the fixed priority
/// Left > Down > Up > Right decides, keeping the behaviour deterministic.
pub fn requested_direction(left: bool, down: bool, up: bool, right: bool) -> (r: Option<
    Direction,
>)
    ensures
        r == requested_direction_spec(left, down, up, right),
{
    if left {
        Option::Some(Direction::Left)
    } else if down {
        Option::Some(Direction::Down)
    } else if up {
        Option::Some(Direction::Up)
    } else if right {
        Option::Some(Direction::Right)
    } else {
        Option::None
    }
}

} // verus!
