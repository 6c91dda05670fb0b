use snake_core::direction::{requested_direction, update_direction, Direction};
use snake_core::food::{check_eaten, spawn_food};
use snake_core::game::GameState;
use snake_core::grid::{in_bounds, Position};
use snake_core::snake::Snake;

fn pos(x: i32, y: i32) -> Position {
    Position { x, y }
}

fn snake_of(cells: Vec<Position>, direction: Direction) -> Snake {
    Snake { segments: cells, direction }
}

#[test]
fn opposite_of_each_heading() {
    assert_eq!(Direction::Left.opposite(), Direction::Right);
    assert_eq!(Direction::Right.opposite(), Direction::Left);
    assert_eq!(Direction::Up.opposite(), Direction::Down);
    assert_eq!(Direction::Down.opposite(), Direction::Up);
}

#[test]
fn update_rejects_every_reversal() {
    assert_eq!(
        update_direction(Some(Direction::Down), Direction::Up),
        Direction::Up
    );
    assert_eq!(
        update_direction(Some(Direction::Up), Direction::Down),
        Direction::Down
    );
    assert_eq!(
        update_direction(Some(Direction::Left), Direction::Right),
        Direction::Right
    );
    assert_eq!(
        update_direction(Some(Direction::Right), Direction::Left),
        Direction::Left
    );
}

#[test]
fn update_accepts_non_opposite_requests() {
    assert_eq!(
        update_direction(Some(Direction::Left), Direction::Up),
        Direction::Left
    );
    assert_eq!(
        update_direction(Some(Direction::Right), Direction::Up),
        Direction::Right
    );
    assert_eq!(
        update_direction(Some(Direction::Up), Direction::Up),
        Direction::Up
    );
    assert_eq!(
        update_direction(Some(Direction::Down), Direction::Left),
        Direction::Down
    );
}

#[test]
fn update_without_request_keeps_heading() {
    assert_eq!(update_direction(None, Direction::Right), Direction::Right);
    assert_eq!(update_direction(None, Direction::Up), Direction::Up);
}

#[test]
fn key_priority_left_over_down_over_up_over_right() {
    assert_eq!(
        requested_direction(true, true, true, true),
        Some(Direction::Left)
    );
    assert_eq!(
        requested_direction(false, true, true, true),
        Some(Direction::Down)
    );
    assert_eq!(
        requested_direction(false, false, true, true),
        Some(Direction::Up)
    );
    assert_eq!(
        requested_direction(false, false, false, true),
        Some(Direction::Right)
    );
    assert_eq!(requested_direction(false, false, false, false), None);
}

#[test]
fn bounds_check_edges() {
    assert!(in_bounds(pos(0, 0), 10, 10));
    assert!(in_bounds(pos(9, 9), 10, 10));
    assert!(!in_bounds(pos(-1, 0), 10, 10));
    assert!(!in_bounds(pos(0, -1), 10, 10));
    assert!(!in_bounds(pos(10, 9), 10, 10));
    assert!(!in_bounds(pos(9, 10), 10, 10));
    assert!(in_bounds(pos(0, 0), 1, 1));
}

#[test]
fn wall_collision_left_from_origin() {
    let s = snake_of(vec![pos(0, 0), pos(1, 0)], Direction::Left);
    let out = s.advance(1, 1);
    assert!(out.collided);
    let out_large = s.advance(10, 10);
    assert!(out_large.collided);
}

#[test]
fn wall_collision_down_from_origin() {
    let s = snake_of(vec![pos(0, 0), pos(0, 1)], Direction::Down);
    let out = s.advance(1, 1);
    assert!(out.collided);
    let out_large = s.advance(10, 10);
    assert!(out_large.collided);
}

#[test]
fn self_collision_on_body_cell() {
    // Head (1,1) moves Up onto (1,2), held by a segment that is not the tail.
    let s = snake_of(
        vec![pos(1, 1), pos(2, 1), pos(2, 2), pos(1, 2), pos(0, 2)],
        Direction::Up,
    );
    let out = s.advance(10, 10);
    assert!(out.collided);
}

#[test]
fn vacated_tail_cell_is_not_a_collision() {
    // Head (1,1) moves Up onto (1,2), the tail cell vacated this very tick.
    let s = snake_of(
        vec![pos(1, 1), pos(2, 1), pos(2, 2), pos(1, 2)],
        Direction::Up,
    );
    let out = s.advance(10, 10);
    assert!(!out.collided);
    assert_eq!(
        out.snake.segments,
        vec![pos(1, 2), pos(1, 1), pos(2, 1), pos(2, 2)]
    );
}

#[test]
fn advance_shifts_and_records_tail() {
    let s = snake_of(vec![pos(3, 3), pos(3, 2)], Direction::Up);
    let out = s.advance(10, 10);
    assert!(!out.collided);
    assert_eq!(out.snake.segments, vec![pos(3, 4), pos(3, 3)]);
    assert_eq!(out.last_tail, pos(3, 2));
}

#[test]
fn growth_appends_at_vacated_tail() {
    let s = snake_of(vec![pos(3, 3), pos(3, 2)], Direction::Up);
    let out = s.advance(10, 10);
    let mut grown = out.snake;
    grown.apply_growth(out.last_tail);
    assert_eq!(grown.segments, vec![pos(3, 4), pos(3, 3), pos(3, 2)]);
}

#[test]
fn growth_through_a_tick_with_food() {
    let mut g = GameState::new(10, 10);
    g.add_food(pos(3, 4));
    let over = g.tick(None);
    assert!(!over);
    assert_eq!(g.snake.segments, vec![pos(3, 4), pos(3, 3), pos(3, 2)]);
    assert_eq!(g.foods, Vec::<Position>::new());
    assert_eq!(g.last_tail, Some(pos(3, 2)));
}

#[test]
fn two_foods_on_one_cell_append_two_segments() {
    let mut g = GameState::new(10, 10);
    g.add_food(pos(3, 4));
    g.add_food(pos(3, 4));
    let over = g.tick(None);
    assert!(!over);
    assert_eq!(
        g.snake.segments,
        vec![pos(3, 4), pos(3, 3), pos(3, 2), pos(3, 2)]
    );
}

#[test]
fn uneaten_food_survives_the_tick() {
    let mut g = GameState::new(10, 10);
    g.add_food(pos(7, 7));
    g.add_food(pos(3, 4));
    g.add_food(pos(0, 0));
    let over = g.tick(None);
    assert!(!over);
    assert_eq!(g.foods, vec![pos(7, 7), pos(0, 0)]);
    assert_eq!(g.snake.segments.len(), 3);
}

#[test]
fn check_eaten_reports_matching_ids_in_order() {
    let foods = vec![pos(1, 1), pos(2, 2), pos(1, 1), pos(3, 3)];
    assert_eq!(check_eaten(pos(1, 1), &foods), vec![0, 2]);
    assert_eq!(check_eaten(pos(3, 3), &foods), vec![3]);
    assert_eq!(check_eaten(pos(5, 5), &foods), Vec::<usize>::new());
    assert_eq!(check_eaten(pos(1, 1), &Vec::new()), Vec::<usize>::new());
}

#[test]
fn three_ticks_without_input_move_straight_up() {
    let mut g = GameState::new(10, 10);
    assert!(!g.tick(None));
    assert!(!g.tick(None));
    assert!(!g.tick(None));
    assert_eq!(g.snake.segments, vec![pos(3, 6), pos(3, 5)]);
    assert_eq!(g.snake.direction, Direction::Up);
}

#[test]
fn collision_tick_resets_the_whole_state() {
    let mut g = GameState::new(10, 10);
    g.snake = snake_of(
        vec![pos(1, 1), pos(2, 1), pos(2, 2), pos(1, 2), pos(0, 2)],
        Direction::Up,
    );
    g.add_food(pos(5, 5));
    let over = g.tick(None);
    assert!(over);
    assert_eq!(g.snake.segments, vec![pos(3, 3), pos(3, 2)]);
    assert_eq!(g.snake.direction, Direction::Up);
    assert_eq!(g.foods, Vec::<Position>::new());
    assert_eq!(g.last_tail, None);
    assert_eq!(g.width, 10);
    assert_eq!(g.height, 10);
}

#[test]
fn wall_hit_through_tick_resets() {
    let mut g = GameState::new(4, 4);
    // The head starts at (3,3); one tick up leaves a 4-cell-high arena.
    let over = g.tick(None);
    assert!(over);
    assert_eq!(g.snake.segments, vec![pos(3, 3), pos(3, 2)]);
}

#[test]
fn second_game_over_changes_nothing() {
    let mut g = GameState::new(10, 10);
    g.add_food(pos(5, 5));
    g.tick(None);
    g.reset();
    let snake_once = g.snake.segments.clone();
    let direction_once = g.snake.direction;
    let foods_once = g.foods.clone();
    let last_tail_once = g.last_tail;
    g.reset();
    assert_eq!(g.snake.segments, snake_once);
    assert_eq!(g.snake.direction, direction_once);
    assert_eq!(g.foods, foods_once);
    assert_eq!(g.last_tail, last_tail_once);
}

#[test]
fn thousand_spawns_stay_in_bounds() {
    for _ in 0..1000 {
        let p = spawn_food(10, 10);
        assert!(0 <= p.x && p.x < 10);
        assert!(0 <= p.y && p.y < 10);
    }
}

#[test]
fn spawn_food_tick_adds_one_food_in_bounds() {
    let mut g = GameState::new(10, 10);
    g.add_food(pos(2, 2));
    g.spawn_food_tick();
    assert_eq!(g.foods.len(), 2);
    assert_eq!(g.foods[0], pos(2, 2));
    let p = g.foods[1];
    assert!(0 <= p.x && p.x < 10);
    assert!(0 <= p.y && p.y < 10);
    assert_eq!(g.snake.segments, vec![pos(3, 3), pos(3, 2)]);
}

#[test]
fn fresh_game_matches_reset_state() {
    let g = GameState::new(12, 8);
    assert_eq!(g.width, 12);
    assert_eq!(g.height, 8);
    assert_eq!(g.snake.segments, vec![pos(3, 3), pos(3, 2)]);
    assert_eq!(g.snake.direction, Direction::Up);
    assert!(g.foods.is_empty());
    assert_eq!(g.last_tail, None);
}

#[test]
fn direction_change_takes_effect_on_the_tick() {
    let mut g = GameState::new(10, 10);
    let over = g.tick(Some(Direction::Right));
    assert!(!over);
    assert_eq!(g.snake.segments, vec![pos(4, 3), pos(3, 3)]);
    assert_eq!(g.snake.direction, Direction::Right);
}

#[test]
fn reversal_through_tick_keeps_moving_up() {
    let mut g = GameState::new(10, 10);
    let over = g.tick(Some(Direction::Down));
    assert!(!over);
    assert_eq!(g.snake.segments, vec![pos(3, 4), pos(3, 3)]);
    assert_eq!(g.snake.direction, Direction::Up);
}
