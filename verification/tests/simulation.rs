use snake_core::{Chain, Direction, FoodPlacer, Game, GameOverReason, Grid, PlaceError, Position, SimulationState, TickOutcome};

fn pos(x: i32, y: i32) -> Position {
    Position { x, y }
}

#[test]
fn in_bounds_accepts_and_rejects() {
    let grid = Grid::new(10, 10);
    assert!(grid.in_bounds(pos(0, 0)));
    assert!(grid.in_bounds(pos(9, 9)));
    assert!(grid.in_bounds(pos(5, 0)));
    assert!(!grid.in_bounds(pos(-1, 0)));
    assert!(!grid.in_bounds(pos(0, -1)));
    assert!(!grid.in_bounds(pos(10, 0)));
    assert!(!grid.in_bounds(pos(0, 10)));
}

#[test]
fn straight_run_three_ticks() {
    let mut g = Game::from_parts(10, 10, pos(5, 5), Direction::Up, vec![pos(5, 4)], pos(2, 2));
    g.set_direction(Direction::Left);
    assert_eq!(g.tick(), TickOutcome::Moved);
    assert_eq!(g.head_position(), pos(4, 5));
    assert_eq!(g.segment_positions(), vec![pos(5, 5)]);
    assert_eq!(g.tick(), TickOutcome::Moved);
    assert_eq!(g.head_position(), pos(3, 5));
    assert_eq!(g.segment_positions(), vec![pos(4, 5)]);
    assert_eq!(g.tick(), TickOutcome::Moved);
    assert_eq!(g.head_position(), pos(2, 5));
    assert_eq!(g.segment_positions(), vec![pos(3, 5)]);
    assert_eq!(g.state(), SimulationState::Playing);
    assert_eq!(g.food_position(), pos(2, 2));
}

#[test]
fn long_chain_trails_the_head() {
    let body = vec![pos(5, 4), pos(5, 3), pos(5, 2)];
    let mut g = Game::from_parts(10, 10, pos(5, 5), Direction::Up, body, pos(0, 0));
    assert_eq!(g.tick(), TickOutcome::Moved);
    assert_eq!(g.head_position(), pos(5, 6));
    assert_eq!(g.segment_positions(), vec![pos(5, 5), pos(5, 4), pos(5, 3)]);
    assert_eq!(g.tick(), TickOutcome::Moved);
    assert_eq!(g.head_position(), pos(5, 7));
    assert_eq!(g.segment_positions(), vec![pos(5, 6), pos(5, 5), pos(5, 4)]);
}

#[test]
fn propagate_follow_shifts_chain() {
    let mut chain = Chain::new();
    chain.append_segment(pos(1, 1));
    chain.append_segment(pos(2, 1));
    chain.append_segment(pos(3, 1));
    chain.propagate_follow(pos(0, 1));
    assert_eq!(chain.segment_positions(), vec![pos(0, 1), pos(1, 1), pos(2, 1)]);
    assert_eq!(chain.len(), 3);
}

#[test]
fn eating_grows_chain_and_food_stays_clear() {
    let mut g = Game::from_parts(10, 10, pos(5, 5), Direction::Up, vec![pos(5, 4)], pos(5, 6));
    assert_eq!(g.tick(), TickOutcome::Ate);
    assert_eq!(g.head_position(), pos(5, 6));
    let body = g.segment_positions();
    assert_eq!(body, vec![pos(5, 5), pos(5, 4)]);
    assert_eq!(g.state(), SimulationState::Playing);
    let food = g.food_position();
    let grid = Grid::new(10, 10);
    assert!(grid.in_bounds(food));
    assert_ne!(food, g.head_position());
    assert!(!body.contains(&food));
}

#[test]
fn self_collision_ends_round_and_moves_nothing() {
    let body = vec![pos(5, 6), pos(4, 6), pos(4, 5)];
    let mut g = Game::from_parts(10, 10, pos(5, 5), Direction::Up, body.clone(), pos(2, 2));
    assert_eq!(g.tick(), TickOutcome::Ended(GameOverReason::SelfCollision));
    assert_eq!(g.state(), SimulationState::GameOver);
    assert_eq!(g.head_position(), pos(5, 5));
    assert_eq!(g.segment_positions(), body);
    assert_eq!(g.food_position(), pos(2, 2));
    assert_eq!(g.tick(), TickOutcome::Idle);
    assert_eq!(g.head_position(), pos(5, 5));
}

#[test]
fn reversal_rejected_turns_accepted() {
    let mut g = Game::from_parts(10, 10, pos(5, 5), Direction::Up, vec![pos(5, 4)], pos(2, 2));
    g.set_direction(Direction::Down);
    assert_eq!(g.direction(), Direction::Up);
    g.set_direction(Direction::Left);
    assert_eq!(g.direction(), Direction::Left);
    let mut h = Game::from_parts(10, 10, pos(5, 5), Direction::Up, vec![pos(5, 4)], pos(2, 2));
    h.set_direction(Direction::Right);
    assert_eq!(h.direction(), Direction::Right);
}

#[test]
fn place_exhausted_on_full_board() {
    let grid = Grid::new(2, 2);
    let occupied = vec![pos(0, 0), pos(0, 1), pos(1, 0), pos(1, 1)];
    assert_eq!(FoodPlacer::place(&grid, &occupied), Err(PlaceError::Exhausted));
}

#[test]
fn place_takes_the_one_free_cell() {
    let grid = Grid::new(2, 2);
    let occupied = vec![pos(0, 0), pos(0, 1), pos(1, 1)];
    assert_eq!(FoodPlacer::place(&grid, &occupied), Ok(pos(1, 0)));
}

#[test]
fn place_avoids_occupied_cells() {
    let grid = Grid::new(3, 3);
    let occupied = vec![pos(0, 0), pos(1, 1), pos(2, 2)];
    let p = FoodPlacer::place(&grid, &occupied).unwrap();
    assert!(grid.in_bounds(p));
    assert!(!occupied.contains(&p));
}

#[test]
fn wall_collision_ends_round() {
    let mut g = Game::from_parts(10, 10, pos(5, 9), Direction::Up, vec![pos(5, 8)], pos(2, 2));
    assert_eq!(g.tick(), TickOutcome::Ended(GameOverReason::Wall));
    assert_eq!(g.state(), SimulationState::GameOver);
    assert_eq!(g.head_position(), pos(5, 9));
    assert_eq!(g.segment_positions(), vec![pos(5, 8)]);
}

#[test]
fn board_full_after_final_bite() {
    let body = vec![pos(0, 1), pos(1, 1)];
    let mut g = Game::from_parts(2, 2, pos(0, 0), Direction::Right, body, pos(1, 0));
    assert_eq!(g.tick(), TickOutcome::Ended(GameOverReason::BoardFull));
    assert_eq!(g.state(), SimulationState::GameOver);
    assert_eq!(g.head_position(), pos(1, 0));
    assert_eq!(g.segment_positions(), vec![pos(0, 0), pos(0, 1), pos(1, 1)]);
}

#[test]
fn cold_start_layout() {
    let g = Game::new();
    assert_eq!(g.state(), SimulationState::Playing);
    assert_eq!(g.direction(), Direction::Up);
    assert_eq!(g.head_position(), pos(5, 5));
    assert_eq!(g.segment_positions(), vec![pos(5, 4)]);
    let food = g.food_position();
    let grid = Grid::new(10, 10);
    assert!(grid.in_bounds(food));
    assert_ne!(food, pos(5, 5));
    assert_ne!(food, pos(5, 4));
}

#[test]
fn reset_rebuilds_cold_start() {
    let mut g = Game::from_parts(10, 10, pos(5, 9), Direction::Up, vec![pos(5, 8)], pos(2, 2));
    assert_eq!(g.tick(), TickOutcome::Ended(GameOverReason::Wall));
    g.reset();
    assert_eq!(g.state(), SimulationState::Playing);
    assert_eq!(g.direction(), Direction::Up);
    assert_eq!(g.head_position(), pos(5, 5));
    assert_eq!(g.segment_positions(), vec![pos(5, 4)]);
    let food = g.food_position();
    assert!(Grid::new(10, 10).in_bounds(food));
    assert_ne!(food, pos(5, 5));
    assert_ne!(food, pos(5, 4));
}

#[test]
fn chain_append_contains_and_ids() {
    let mut chain = Chain::new();
    assert_eq!(chain.len(), 0);
    let first = chain.append_segment(pos(3, 3));
    let second = chain.append_segment(pos(3, 2));
    assert_eq!(first, 0);
    assert_eq!(second, 1);
    assert_eq!(chain.len(), 2);
    assert!(chain.contains_position(pos(3, 3)));
    assert!(chain.contains_position(pos(3, 2)));
    assert!(!chain.contains_position(pos(4, 3)));
}

#[test]
fn grow_at_appends_at_the_eaten_cell() {
    let mut chain = Chain::new();
    chain.append_segment(pos(1, 1));
    chain.grow_at(pos(7, 7));
    assert_eq!(chain.segment_positions(), vec![pos(1, 1), pos(7, 7)]);
}

#[test]
fn eating_repeatedly_lengthens_by_one_each_time() {
    let mut g = Game::from_parts(10, 10, pos(5, 5), Direction::Up, vec![pos(5, 4)], pos(5, 6));
    assert_eq!(g.tick(), TickOutcome::Ate);
    assert_eq!(g.segment_positions().len(), 2);
    let mut h = Game::from_parts(10, 10, pos(4, 4), Direction::Right, vec![pos(4, 3), pos(4, 2)], pos(5, 4));
    assert_eq!(h.tick(), TickOutcome::Ate);
    assert_eq!(h.segment_positions().len(), 3);
    assert_eq!(h.segment_positions(), vec![pos(4, 4), pos(4, 3), pos(4, 2)]);
}
