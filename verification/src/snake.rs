//! The snake and the movement engine: one tick offsets the head along the
//! heading, shifts every trailing segment into its predecessor's cell,
//! records the vacated tail cell, and detects wall and self collisions.

use vstd::prelude::*;
use crate::direction::Direction;
use crate::grid::{Position, in_bounds, in_bounds_spec};

verus! {

/// The snake: its segment positions in order, head first, plus the current
/// heading. The segment list never shrinks below two entries during normal
/// play; an empty list is an invariant violation that callers must not reach.
pub struct Snake {
    pub segments: Vec<Position>,
    pub direction: Direction,
}

/// Offset in x of one step along `d`.
pub open spec fn dx(d: Direction) -> int {
    match d {
        Direction::Left => -1,
        Direction::Right => 1,
        Direction::Up => 0,
        Direction::Down => 0,
    }
}

/// Offset in y of one step along `d` (y increases upward).
pub open spec fn dy(d: Direction) -> int {
    match d {
        Direction::Left => 0,
        Direction::Right => 0,
        Direction::Up => 1,
        Direction::Down => -1,
    }
}

/// The cell one step from `p` along `d`.
pub open spec fn step_spec(p: Position, d: Direction) -> Position {
    Position { x: (p.x + dx(d)) as i32, y: (p.y + dy(d)) as i32 }
}

/// Whether advancing to `new_head` collides, judged against the pre-move
/// segment snapshot: the cell lies outside the arena, or it is occupied by a
/// segment other than the tail — the tail's cell is vacated by the very same
/// shift, so moving onto it is safe.
pub open spec fn collides_spec(
    new_head: Position,
    snapshot: Seq<Position>,
    width: int,
    height: int,
) -> bool {
    !in_bounds_spec(new_head, width, height) || snapshot.drop_last().contains(new_head)
}

/// The segment list after one shift: the new head in front, then every
/// pre-move segment but the tail, each trailing segment now in its
/// predecessor's old cell.
pub open spec fn shifted_spec(snapshot: Seq<Position>, new_head: Position) -> Seq<Position> {
    seq![new_head] + snapshot.drop_last()
}

/// What one movement tick produced: the shifted snake, whether its new head
/// collided, and the tail cell the shift vacated (kept so a growth event can
/// append a segment there).
pub struct MovementOutcome {
    pub snake: Snake,
    pub collided: bool,
    pub last_tail: Position,
}

impl Snake {
    /// Advance one tick. The head moves one cell along the heading, each
    /// trailing segment takes its predecessor's old cell, and the vacated
    /// tail cell is recorded whatever the collision outcome. The collision
    /// flag is set iff the new head leaves the arena or lands on a pre-move
    /// segment other than the tail.
    pub fn advance(&self, width: i32, height: i32) -> (out: MovementOutcome)
        requires
            self.segments@.len() >= 1,
            i32::MIN < self.segments@[0].x < i32::MAX,
            i32::MIN < self.segments@[0].y < i32::MAX,
        ensures
            out.snake.direction == self.direction,
            out.snake.segments@ == shifted_spec(
                self.segments@,
                step_spec(self.segments@[0], self.direction),
            ),
            out.collided == collides_spec(
                step_spec(self.segments@[0], self.direction),
                self.segments@,
                width as int,
                height as int,
            ),
            out.last_tail == self.segments@.last(),
    {
        let n = self.segments.len();
        let head = self.segments[0];
        let new_head = match self.direction {
            Direction::Left => Position { x: head.x - 1, y: head.y },
            Direction::Right => Position { x: head.x + 1, y: head.y },
            Direction::Up => Position { x: head.x, y: head.y + 1 },
            Direction::Down => Position { x: head.x, y: head.y - 1 },
        };
        proof {
            assert(new_head == step_spec(self.segments@[0], self.direction));
        }

        let mut hit = false;
        let mut i: usize = 0;
        while i < n - 1
            invariant
                1 <= n == self.segments@.len(),
                0 <= i <= n - 1,
                hit == exists|j: int| 0 <= j < i && self.segments@[j] == new_head,
            decreases n - 1 - i,
        {
            if self.segments[i] == new_head {
                hit = true;
            }
            i += 1;
        }
        proof {
            assert(hit == self.segments@.drop_last().contains(new_head)) by {
                if hit {
                    let j = choose|j: int| 0 <= j < n - 1 && self.segments@[j] == new_head;
                    assert(self.segments@.drop_last()[j] == new_head);
                }
                if self.segments@.drop_last().contains(new_head) {
                    let j = choose|j: int|
                        0 <= j < self.segments@.drop_last().len()
                            && self.segments@.drop_last()[j] == new_head;
                    assert(self.segments@[j] == new_head);
                }
            }
        }
        let collided = !in_bounds(new_head, width, height) || hit;

        let mut segs: Vec<Position> = Vec::new();
        segs.push(new_head);
        let mut i: usize = 0;
        while i < n - 1
            invariant
                1 <= n == self.segments@.len(),
                0 <= i <= n - 1,
                segs@.len() == i + 1,
                segs@[0] == new_head,
                forall|j: int| 1 <= j <= i ==> segs@[j] == self.segments@[j - 1],
            decreases n - 1 - i,
        {
            segs.push(self.segments[i]);
            i += 1;
        }
        proof {
            assert(segs@ =~= shifted_spec(self.segments@, new_head));
        }

        let last_tail = self.segments[n - 1];
        MovementOutcome {
            snake: Snake { segments: segs, direction: self.direction },
            collided,
            last_tail,
        }
    }

    /// Apply one growth event: append exactly one new segment at `last_tail`,
    /// the cell the tail vacated on the tick whose event is being applied.
    /// Several growth events in one tick each append one segment.
    pub fn apply_growth(&mut self, last_tail: Position)
        ensures
            final(self).direction == old(self).direction,
            final(self).segments@ == old(self).segments@.push(last_tail),
    {
        self.segments.push(last_tail);
    }
}

/// Law: a step onto any pre-move segment other than the tail's cell is a
/// self collision, wherever the arena bounds lie.
pub proof fn lemma_body_hit_collides(
    new_head: Position,
    snapshot: Seq<Position>,
    width: int,
    height: int,
)
    requires
        snapshot.drop_last().contains(new_head),
    ensures
        collides_spec(new_head, snapshot, width, height),
{
}

/// Law: a step into the cell the tail vacates on the same tick is not a
/// collision, provided the cell lies inside the arena and no earlier segment
/// occupies it.
pub proof fn lemma_vacated_tail_cell_safe(
    new_head: Position,
    snapshot: Seq<Position>,
    width: int,
    height: int,
)
    requires
        snapshot.len() >= 1,
        new_head == snapshot.last(),
        !snapshot.drop_last().contains(new_head),
        in_bounds_spec(new_head, width, height),
    ensures
        !collides_spec(new_head, snapshot, width, height),
{
}

} // verus!
