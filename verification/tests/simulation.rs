use snake_game::Direction;
use snake_game::Food;
use snake_game::Game;
use snake_game::Position;
use snake_game::Snake;
use snake_game::GAME_OVER_TIMEOUT;
use snake_game::GRID_SIZE;
use snake_game::INITIAL_SNAKE_SPEED;
use snake_game::WINDOW_HEIGHT;
use snake_game::WINDOW_WIDTH;

fn pos(x: u64, y: u64) -> Position {
    Position { x, y }
}

fn snake_with_body(body: Vec<Position>, direction: Direction) -> Snake {
    Snake { body, direction, speed: INITIAL_SNAKE_SPEED, accumulated_dt: 0 }
}

fn on_grid(p: Position) -> bool {
    p.x < WINDOW_WIDTH
        && p.y < WINDOW_HEIGHT
        && p.x % GRID_SIZE == 0
        && p.y % GRID_SIZE == 0
}

#[test]
fn new_snake_is_initial() {
    let s = Snake::new();
    assert_eq!(s.body, vec![pos(0, 0)]);
    assert!(matches!(s.direction, Direction::Right));
    assert_eq!(s.speed, INITIAL_SNAKE_SPEED);
    assert_eq!(s.accumulated_dt, 0);
}

#[test]
fn opposite_heading_is_rejected() {
    let mut s = Snake::new();
    assert!(matches!(s.direction, Direction::Right));
    s.move_left();
    assert!(matches!(s.direction, Direction::Right));
    s.move_up();
    assert!(matches!(s.direction, Direction::Up));
    s.move_down();
    assert!(matches!(s.direction, Direction::Up));
    s.move_left();
    assert!(matches!(s.direction, Direction::Left));
    s.move_right();
    assert!(matches!(s.direction, Direction::Left));
    s.move_down();
    assert!(matches!(s.direction, Direction::Down));
    s.move_up();
    assert!(matches!(s.direction, Direction::Down));
}

#[test]
fn non_opposite_heading_is_taken() {
    let mut s = Snake::new();
    s.set_heading(Direction::Up);
    assert!(matches!(s.direction, Direction::Up));
    s.set_heading(Direction::Left);
    assert!(matches!(s.direction, Direction::Left));
    s.set_heading(Direction::Down);
    assert!(matches!(s.direction, Direction::Down));
    s.set_heading(Direction::Right);
    assert!(matches!(s.direction, Direction::Right));
    // requesting the current heading again is not an opposite, so it stays
    s.set_heading(Direction::Right);
    assert!(matches!(s.direction, Direction::Right));
}

#[test]
fn one_interval_moves_one_cell() {
    let mut s = Snake::new();
    s.update(100, WINDOW_WIDTH, WINDOW_HEIGHT);
    assert_eq!(s.body, vec![pos(20, 0)]);
    assert_eq!(s.accumulated_dt, 0);
    s.update(100, WINDOW_WIDTH, WINDOW_HEIGHT);
    assert_eq!(s.body, vec![pos(40, 0)]);
}

#[test]
fn short_deltas_accumulate_to_one_step() {
    let mut s = Snake::new();
    s.update(40, WINDOW_WIDTH, WINDOW_HEIGHT);
    assert_eq!(s.body, vec![pos(0, 0)]);
    assert_eq!(s.accumulated_dt, 40);
    s.update(60, WINDOW_WIDTH, WINDOW_HEIGHT);
    assert_eq!(s.body, vec![pos(20, 0)]);
    assert_eq!(s.accumulated_dt, 0);
}

#[test]
fn large_delta_catches_up_without_clamping() {
    let mut s = Snake::new();
    s.update(300, WINDOW_WIDTH, WINDOW_HEIGHT);
    assert_eq!(s.body, vec![pos(60, 0)]);
    assert_eq!(s.accumulated_dt, 0);
}

#[test]
fn split_and_single_delivery_agree() {
    let mut a = Snake::new();
    let mut b = Snake::new();
    a.update(250, WINDOW_WIDTH, WINDOW_HEIGHT);
    b.update(100, WINDOW_WIDTH, WINDOW_HEIGHT);
    b.update(150, WINDOW_WIDTH, WINDOW_HEIGHT);
    assert_eq!(a.body, b.body);
    assert_eq!(a.accumulated_dt, b.accumulated_dt);
    assert_eq!(a.accumulated_dt, 50);
}

#[test]
fn wrap_right_edge() {
    let mut s = snake_with_body(vec![pos(600, 0)], Direction::Right);
    s.update(100, WINDOW_WIDTH, WINDOW_HEIGHT);
    assert_eq!(s.body, vec![pos(620, 0)]);
    s.update(100, WINDOW_WIDTH, WINDOW_HEIGHT);
    assert_eq!(s.body, vec![pos(0, 0)]);
}

#[test]
fn wrap_left_edge() {
    let mut s = snake_with_body(vec![pos(0, 100)], Direction::Left);
    s.update(100, WINDOW_WIDTH, WINDOW_HEIGHT);
    assert_eq!(s.body, vec![pos(620, 100)]);
}

#[test]
fn wrap_top_edge() {
    let mut s = snake_with_body(vec![pos(40, 0)], Direction::Up);
    s.update(100, WINDOW_WIDTH, WINDOW_HEIGHT);
    assert_eq!(s.body, vec![pos(40, 460)]);
}

#[test]
fn wrap_bottom_edge() {
    let mut s = snake_with_body(vec![pos(40, 460)], Direction::Down);
    s.update(100, WINDOW_WIDTH, WINDOW_HEIGHT);
    assert_eq!(s.body, vec![pos(40, 0)]);
}

#[test]
fn body_follows_the_segment_ahead() {
    let mut s = snake_with_body(
        vec![pos(40, 0), pos(20, 0), pos(0, 0)],
        Direction::Down,
    );
    s.update(100, WINDOW_WIDTH, WINDOW_HEIGHT);
    assert_eq!(s.body, vec![pos(40, 20), pos(40, 0), pos(20, 0)]);
}

#[test]
fn grow_duplicates_the_tail() {
    let mut s = snake_with_body(vec![pos(40, 0), pos(20, 0)], Direction::Right);
    s.grow();
    assert_eq!(s.body, vec![pos(40, 0), pos(20, 0), pos(20, 0)]);
    assert_eq!(s.body[0], pos(40, 0));
}

#[test]
fn short_body_never_collides() {
    let s = snake_with_body(
        vec![pos(0, 0), pos(20, 0), pos(0, 0), pos(20, 0)],
        Direction::Right,
    );
    assert!(!s.check_collision_with_self());
}

#[test]
fn head_on_segment_three_collides() {
    let s = snake_with_body(
        vec![pos(20, 0), pos(0, 0), pos(0, 20), pos(20, 0), pos(20, 20), pos(40, 20)],
        Direction::Right,
    );
    assert!(s.check_collision_with_self());
}

#[test]
fn long_body_without_overlap_does_not_collide() {
    let s = snake_with_body(
        vec![pos(100, 0), pos(80, 0), pos(60, 0), pos(40, 0), pos(20, 0), pos(0, 0)],
        Direction::Right,
    );
    assert!(!s.check_collision_with_self());
}

#[test]
fn restart_game_restores_the_initial_state() {
    let mut s = snake_with_body(vec![pos(40, 0), pos(20, 0)], Direction::Up);
    s.accumulated_dt = 30;
    s.restart_game();
    assert_eq!(s.body, vec![pos(0, 0)]);
    assert!(matches!(s.direction, Direction::Right));
    assert_eq!(s.speed, INITIAL_SNAKE_SPEED);
    assert_eq!(s.accumulated_dt, 0);
}

#[test]
fn eating_grows_and_respawns_on_the_grid() {
    let mut s = snake_with_body(vec![pos(20, 0), pos(0, 0)], Direction::Right);
    let mut food = Food { position: pos(20, 0) };
    s.check_collision_with_food(&mut food);
    assert_eq!(s.body, vec![pos(20, 0), pos(0, 0), pos(0, 0)]);
    assert!(on_grid(food.position));
}

#[test]
fn far_target_is_left_alone() {
    let mut s = snake_with_body(vec![pos(20, 0)], Direction::Right);
    let mut food = Food { position: pos(40, 0) };
    s.check_collision_with_food(&mut food);
    assert_eq!(s.body, vec![pos(20, 0)]);
    assert_eq!(food.position, pos(40, 0));
}

#[test]
fn respawn_lands_on_a_grid_cell() {
    let mut food = Food::new();
    for _ in 0..50 {
        food.respawn(WINDOW_WIDTH, WINDOW_HEIGHT);
        assert!(on_grid(food.position));
    }
}

#[test]
fn respawn_on_a_single_cell_grid_is_forced_to_the_origin() {
    let mut food = Food { position: pos(0, 0) };
    food.respawn(GRID_SIZE, GRID_SIZE);
    assert_eq!(food.position, pos(0, 0));
}

#[test]
fn grid_cell_position_scales_cell_indices() {
    let p = snake_game::grid_cell_position(3, 5, WINDOW_WIDTH, WINDOW_HEIGHT);
    assert_eq!(p, pos(60, 100));
}

#[test]
fn new_game_is_initial() {
    let g = Game::new();
    assert_eq!(g.snake.body, vec![pos(0, 0)]);
    assert_eq!(g.food.position, pos(0, 0));
    assert!(!g.game_over);
    assert!(g.game_over_time.is_none());
}

#[test]
fn advance_moves_the_actor_and_stays_running() {
    let mut g = Game::new();
    g.food.position = pos(600, 400);
    g.advance(100, 5);
    assert_eq!(g.snake.body, vec![pos(20, 0)]);
    assert!(!g.game_over);
    assert!(g.game_over_time.is_none());
}

#[test]
fn advance_eats_a_target_in_reach() {
    let mut g = Game::new();
    g.snake = snake_with_body(vec![pos(0, 0), pos(0, 20)], Direction::Right);
    g.food.position = pos(20, 0);
    g.advance(100, 5);
    assert_eq!(g.snake.body.len(), 3);
    assert_eq!(g.snake.body[0], pos(20, 0));
    assert!(on_grid(g.food.position));
    assert!(!g.game_over);
}

#[test]
fn advance_into_the_body_ends_the_game() {
    let mut g = Game::new();
    g.snake = snake_with_body(
        vec![pos(0, 0), pos(0, 20), pos(20, 0), pos(20, 20), pos(40, 20), pos(40, 0)],
        Direction::Right,
    );
    g.food.position = pos(600, 400);
    g.advance(100, 42);
    assert!(g.game_over);
    assert_eq!(g.game_over_time, Some(42));
}

#[test]
fn advance_while_over_changes_nothing() {
    let mut g = Game::new();
    g.snake = snake_with_body(vec![pos(100, 100)], Direction::Right);
    g.game_over = true;
    g.game_over_time = Some(7);
    g.advance(100, 9);
    assert_eq!(g.snake.body, vec![pos(100, 100)]);
    assert!(g.game_over);
    assert_eq!(g.game_over_time, Some(7));
}

#[test]
fn restart_waits_for_the_timeout() {
    let mut g = Game::new();
    g.snake = snake_with_body(vec![pos(100, 100), pos(80, 100)], Direction::Up);
    g.game_over = true;
    g.game_over_time = Some(1000);
    g.check_restart(1000 + GAME_OVER_TIMEOUT - 1);
    assert!(g.game_over);
    assert_eq!(g.snake.body, vec![pos(100, 100), pos(80, 100)]);
    g.check_restart(1000 + GAME_OVER_TIMEOUT);
    assert!(!g.game_over);
    assert!(g.game_over_time.is_none());
    assert_eq!(g.snake.body, vec![pos(0, 0)]);
    assert!(matches!(g.snake.direction, Direction::Right));
    assert_eq!(g.food.position, pos(0, 0));
}

#[test]
fn restart_does_nothing_while_running() {
    let mut g = Game::new();
    g.snake = snake_with_body(vec![pos(100, 100)], Direction::Up);
    g.check_restart(1_000_000);
    assert_eq!(g.snake.body, vec![pos(100, 100)]);
    assert!(!g.game_over);
}
