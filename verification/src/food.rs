//! Food spawning and consumption: a spawn draws a uniform cell inside the
//! arena (occupied cells are deliberately not excluded), and a food item is
//! eaten exactly when the snake's head lands on its cell.

use vstd::prelude::*;
use crate::grid::{Position, in_bounds_spec};

verus! {

/// Relies on rand::Rng::gen_range, called on rand::thread_rng(): a uniform
/// sample from the range 0..n, which is non-empty because n > 0, so the call
/// does not panic.
#[verifier::external_body]
fn random_below(n: i32) -> (r: i32)
    requires
        n > 0,
    ensures
        0 <= r < n,
{
    rand::Rng::gen_range(&mut rand::thread_rng(), 0..n)
}

/// Draw a food cell: two independent uniform samples in [0, width) and
/// [0, height). Cells occupied by the snake or by earlier food are not
/// excluded; that permissive behaviour is part of the design.
pub fn spawn_food(width: i32, height: i32) -> (p: Position)
    requires
        width > 0,
        height > 0,
    ensures
        in_bounds_spec(p, width as int, height as int),
{
    Position { x: random_below(width), y: random_below(height) }
}

/// The ids (indices into the food list) of the food items lying at `head`,
/// in increasing order.
pub open spec fn eaten_ids_spec(head: Position, foods: Seq<Position>) -> Seq<int>
    decreases foods.len(),
{
    if foods.len() == 0 {
        Seq::empty()
    } else if foods.last() == head {
        eaten_ids_spec(head, foods.drop_last()).push(foods.len() - 1)
    } else {
        eaten_ids_spec(head, foods.drop_last())
    }
}

/// The predicate a food item must satisfy to survive the head landing on
/// `head`: it lies on some other cell.
pub open spec fn misses_head(head: Position) -> spec_fn(Position) -> bool {
    |p: Position| p != head
}

/// The food items that survive the head landing on `head`: those at any
/// other cell, in their original order.
pub open spec fn remaining_foods_spec(head: Position, foods: Seq<Position>) -> Seq<Position> {
    foods.filter(misses_head(head))
}

/// How many food items the head consumes this tick: one growth event fires
/// for each of them.
pub open spec fn eaten_count_spec(head: Position, foods: Seq<Position>) -> int {
    eaten_ids_spec(head, foods).len() as int
}

/// Detect consumption: the ids of every active food item whose cell equals
/// the head's, in increasing order. Each id reported here is removed from
/// the food list and fires one growth event.
pub fn check_eaten(head: Position, foods: &Vec<Position>) -> (eaten: Vec<usize>)
    ensures
        eaten@.map_values(|u: usize| u as int) == eaten_ids_spec(head, foods@),
{
    let mut eaten: Vec<usize> = Vec::new();
    let mut i: usize = 0;
    while i < foods.len()
        invariant
            0 <= i <= foods@.len(),
            eaten@.map_values(|u: usize| u as int) == eaten_ids_spec(head, foods@.take(i as int)),
        decreases foods@.len() - i,
    {
        proof {
            assert(foods@.take(i + 1).drop_last() =~= foods@.take(i as int));
            assert(foods@.take(i + 1).last() == foods@[i as int]);
        }
        if foods[i] == head {
            eaten.push(i);
            proof {
                assert(eaten@.map_values(|u: usize| u as int) =~= eaten_ids_spec(
                    head,
                    foods@.take(i + 1),
                ));
            }
        }
        i += 1;
    }
    proof {
        assert(foods@.take(foods@.len() as int) =~= foods@);
    }
    eaten
}

} // verus!
