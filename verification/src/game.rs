//! The whole simulation state and the per-tick update, in the fixed order:
//! heading update, movement, food consumption, growth, game-over reset.

use vstd::prelude::*;
use crate::direction::{Direction, update_direction, update_direction_spec};
use crate::food::{eaten_count_spec, remaining_foods_spec, spawn_food};
use crate::grid::{Position, in_bounds_spec};
use crate::snake::{Snake, collides_spec, shifted_spec, step_spec};

verus! {

/// x of the fixed cell where the head starts and restarts.
pub const START_X: i32 = 3;

/// y of the fixed cell where the head starts and restarts.
pub const START_Y: i32 = 3;

/// The freshly spawned snake's segments: the head at the start cell and one
/// body segment immediately below it.
pub open spec fn initial_segments() -> Seq<Position> {
    seq![
        Position { x: START_X, y: START_Y },
        Position { x: START_X, y: (START_Y - 1) as i32 },
    ]
}

/// The freshly spawned snake: at the start cell, one body segment below the
/// head, heading Up.
pub fn initial_snake() -> (s: Snake)
    ensures
        s.segments@ == initial_segments(),
        s.direction == Direction::Up,
{
    let mut segs: Vec<Position> = Vec::new();
    segs.push(Position { x: START_X, y: START_Y });
    segs.push(Position { x: START_X, y: START_Y - 1 });
    proof {
        assert(segs@ =~= initial_segments());
    }
    Snake { segments: segs, direction: Direction::Up }
}

/// The whole simulation state between ticks.
pub struct GameState {
    /// Arena width in cells.
    pub width: i32,
    /// Arena height in cells.
    pub height: i32,
    /// The snake, never empty during normal play.
    pub snake: Snake,
    /// Every active food item's cell. Several may be active at once — the
    /// spawn timer runs independently of eating — and this is deliberate.
    pub foods: Vec<Position>,
    /// The tail cell vacated by the most recent movement tick, where a
    /// growth event appends a segment. Overwritten every movement tick.
    pub last_tail: Option<Position>,
}

/// A state as the game-over reset leaves it: the starting snake, no food,
/// no recorded tail cell.
pub open spec fn is_reset_state(s: GameState) -> bool {
    &&& s.snake.segments@ == initial_segments()
    &&& s.snake.direction == Direction::Up
    &&& s.foods@ == Seq::<Position>::empty()
    &&& s.last_tail is None
}

/// The heading the movement engine uses on a tick of `s` with `requested`.
pub open spec fn tick_heading(s: GameState, requested: Option<Direction>) -> Direction {
    update_direction_spec(requested, s.snake.direction)
}

/// The cell the head moves to on a tick of `s` with `requested`.
pub open spec fn tick_new_head(s: GameState, requested: Option<Direction>) -> Position {
    step_spec(s.snake.segments@[0], tick_heading(s, requested))
}

/// Whether a tick of `s` with `requested` ends in a collision, and so in a
/// game-over reset.
pub open spec fn tick_collided(s: GameState, requested: Option<Direction>) -> bool {
    collides_spec(tick_new_head(s, requested), s.snake.segments@, s.width as int, s.height as int)
}

/// The segments after a collision-free tick: the shifted list, then one
/// appended copy of the vacated tail cell per food item consumed.
pub open spec fn tick_segments(s: GameState, requested: Option<Direction>) -> Seq<Position> {
    shifted_spec(s.snake.segments@, tick_new_head(s, requested)) + Seq::new(
        eaten_count_spec(tick_new_head(s, requested), s.foods@) as nat,
        |k: int| s.snake.segments@.last(),
    )
}

impl GameState {
    /// Well-formedness between ticks: the arena is at least 4 by 4 cells (so
    /// the starting configuration fits), the snake has at least its head and
    /// one body segment, and every segment lies inside the arena.
    pub open spec fn wf(&self) -> bool {
        &&& 4 <= self.width
        &&& 4 <= self.height
        &&& 2 <= self.snake.segments@.len()
        &&& forall|i: int|
            0 <= i < self.snake.segments@.len() ==> in_bounds_spec(
                #[trigger] self.snake.segments@[i],
                self.width as int,
                self.height as int,
            )
    }

    /// A fresh game: the starting snake in an empty arena of the given size.
    pub fn new(width: i32, height: i32) -> (s: GameState)
        requires
            4 <= width,
            4 <= height,
        ensures
            s.width == width,
            s.height == height,
            is_reset_state(s),
            s.wf(),
    {
        let s = GameState {
            width,
            height,
            snake: initial_snake(),
            foods: Vec::new(),
            last_tail: Option::None,
        };
        proof {
            assert(s.foods@ =~= Seq::<Position>::empty());
            assert(s.snake.segments@[0] == Position { x: 3, y: 3 });
            assert(s.snake.segments@[1] == Position { x: 3, y: 2 });
        }
        s
    }

    /// Handle a game-over event: discard every food item and every segment,
    /// then reinitialize the snake to its starting configuration. This is a
    /// full reset, so a second game-over event in the same tick finds the
    /// state already reset and changes nothing.
    pub fn reset(&mut self)
        ensures
            final(self).width == old(self).width,
            final(self).height == old(self).height,
            is_reset_state(*final(self)),
            4 <= old(self).width && 4 <= old(self).height ==> final(self).wf(),
    {
        self.snake = initial_snake();
        self.foods = Vec::new();
        self.last_tail = Option::None;
        proof {
            assert(self.foods@ =~= Seq::<Position>::empty());
            assert(self.snake.segments@[0] == Position { x: 3, y: 3 });
            assert(self.snake.segments@[1] == Position { x: 3, y: 2 });
        }
    }

    /// One firing of the food-spawn timer with a caller-chosen cell: add one
    /// food item at `pos`. Nothing else changes.
    pub fn add_food(&mut self, pos: Position)
        ensures
            final(self).foods@ == old(self).foods@.push(pos),
            final(self).width == old(self).width,
            final(self).height == old(self).height,
            final(self).snake == old(self).snake,
            final(self).last_tail == old(self).last_tail,
            old(self).wf() ==> final(self).wf(),
    {
        self.foods.push(pos);
    }

    /// One firing of the food-spawn timer: draw a uniform cell inside the
    /// arena and add one food item there. The spawn timer runs independently
    /// of the movement tick; the two may fire in any relative order.
    pub fn spawn_food_tick(&mut self)
        requires
            old(self).width > 0,
            old(self).height > 0,
        ensures
            final(self).width == old(self).width,
            final(self).height == old(self).height,
            final(self).snake == old(self).snake,
            final(self).last_tail == old(self).last_tail,
            final(self).foods@.len() == old(self).foods@.len() + 1,
            final(self).foods@.drop_last() == old(self).foods@,
            in_bounds_spec(
                final(self).foods@.last(),
                old(self).width as int,
                old(self).height as int,
            ),
            old(self).wf() ==> final(self).wf(),
    {
        let p = spawn_food(self.width, self.height);
        self.foods.push(p);
        proof {
            assert(self.foods@.drop_last() =~= old(self).foods@);
        }
    }

    /// One movement tick, in the fixed order: update the heading from the
    /// request, advance the snake, consume every food item under the new
    /// head (one growth event each), apply growth at the vacated tail cell,
    /// and finally handle a collision by a full reset. Returns whether a
    /// game-over occurred.
    pub fn tick(&mut self, requested: Option<Direction>) -> (game_over: bool)
        requires
            old(self).wf(),
        ensures
            final(self).wf(),
            final(self).width == old(self).width,
            final(self).height == old(self).height,
            game_over == tick_collided(*old(self), requested),
            game_over ==> is_reset_state(*final(self)),
            !game_over ==> {
                &&& final(self).snake.direction == tick_heading(*old(self), requested)
                &&& final(self).snake.segments@ == tick_segments(*old(self), requested)
                &&& final(self).foods@ == remaining_foods_spec(
                    tick_new_head(*old(self), requested),
                    old(self).foods@,
                )
                &&& final(self).last_tail == Option::Some(old(self).snake.segments@.last())
            },
    {
        let ghost s0 = *old(self);

        // Input mapping: the validated heading for this tick.
        let dir = update_direction(requested, self.snake.direction);
        self.snake.direction = dir;

        // Movement: shift the snake and judge the collision.
        let out = self.snake.advance(self.width, self.height);
        let collided = out.collided;
        let tail_cell = out.last_tail;
        self.snake = out.snake;
        self.last_tail = Option::Some(tail_cell);
        proof {
            assert(self.snake.segments@.len() == s0.snake.segments@.len());
            assert(self.snake.segments@[0] == tick_new_head(s0, requested));
        }

        // Food consumption: one growth event per food item under the head.
        let head = self.snake.segments[0];
        let mut remaining: Vec<Position> = Vec::new();
        let mut events: usize = 0;
        let n = self.foods.len();
        let mut i: usize = 0;
        while i < n
            invariant
                n == self.foods@.len(),
                0 <= i <= n,
                events <= i,
                remaining@ == remaining_foods_spec(head, self.foods@.take(i as int)),
                events as int == eaten_count_spec(head, self.foods@.take(i as int)),
            decreases n - i,
        {
            proof {
                self.foods@.lemma_take_succ_push(i as int);
                self.foods@.take(i as int).lemma_filter_push(
                    self.foods@[i as int],
                    crate::food::misses_head(head),
                );
                assert(self.foods@.take(i + 1).drop_last() =~= self.foods@.take(i as int));
                assert(self.foods@.take(i + 1).last() == self.foods@[i as int]);
            }
            if self.foods[i] == head {
                events += 1;
            } else {
                remaining.push(self.foods[i]);
            }
            i += 1;
        }
        proof {
            assert(self.foods@.take(n as int) =~= self.foods@);
        }
        self.foods = remaining;

        // Growth: each event appends one segment at the vacated tail cell.
        let ghost base = self.snake.segments@;
        let ghost foods_after = self.foods@;
        let mut g: usize = 0;
        while g < events
            invariant
                g <= events,
                self.width == s0.width,
                self.height == s0.height,
                self.foods@ == foods_after,
                self.last_tail == Option::Some(tail_cell),
                self.snake.direction == dir,
                self.snake.segments@ == base + Seq::new(g as nat, |k: int| tail_cell),
            decreases events - g,
        {
            self.snake.apply_growth(tail_cell);
            proof {
                assert(self.snake.segments@ =~= base + Seq::new((g + 1) as nat, |k: int| tail_cell));
            }
            g += 1;
        }

        // Game over: a collision resets the whole state within the tick.
        if collided {
            self.reset();
            return true;
        }

        proof {
            let nh = tick_new_head(s0, requested);
            let snap = s0.snake.segments@;
            let m = snap.len() as int;
            let shifted = shifted_spec(snap, nh);
            assert(tail_cell == snap.last());
            assert(self.snake.segments@ =~= tick_segments(s0, requested));
            let w = self.width as int;
            let h = self.height as int;
            assert(collided == tick_collided(s0, requested));
            assert(in_bounds_spec(nh, w, h));
            assert forall|j: int|
                0 <= j < self.snake.segments@.len() implies in_bounds_spec(
                #[trigger] self.snake.segments@[j],
                w,
                h,
            ) by {
                assert(shifted.len() == m);
                if j == 0 {
                    assert(shifted[0] == nh);
                    assert(self.snake.segments@[0] == nh);
                } else if j < m {
                    assert(shifted[j] == snap.drop_last()[j - 1]);
                    assert(snap.drop_last()[j - 1] == snap[j - 1]);
                    assert(self.snake.segments@[j] == snap[j - 1]);
                    assert(in_bounds_spec(snap[j - 1], w, h));
                } else {
                    assert(self.snake.segments@[j] == snap.last());
                    assert(snap.last() == snap[m - 1]);
                    assert(in_bounds_spec(snap[m - 1], w, h));
                }
            }
        }
        false
    }
}

/// Law: the game-over reset is idempotent. Any two states the reset leaves
/// behind agree on every observable part, so a second game-over event within
/// one tick produces exactly the state the first produced.
pub proof fn lemma_game_over_idempotent(s1: GameState, s2: GameState)
    requires
        is_reset_state(s1),
        is_reset_state(s2),
    ensures
        s1.snake.segments@ == s2.snake.segments@,
        s1.snake.direction == s2.snake.direction,
        s1.foods@ == s2.foods@,
        s1.last_tail == s2.last_tail,
{
}

} // verus!
