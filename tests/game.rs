use snake_game::{Direction, Game, Point, Snake};

fn p(x: i32, y: i32) -> Point {
    Point { x, y }
}

fn on_grid(g: &Game, c: Point) -> bool {
    c.x >= 0 && c.x < g.width() && c.y >= 0 && c.y < g.height()
}

fn food_is_free(g: &Game) -> bool {
    on_grid(g, g.food()) && !g.snake().body.contains(&g.food())
}

/// A started 20 by 20 game whose food sits in the top-left corner.
fn started() -> Game {
    let mut g = Game::new(20, 20);
    g.start_game();
    assert!(g.try_place_food(p(0, 0)));
    g
}

/// Puts food in front of the head and moves onto it.
fn eat_ahead(g: &mut Game, ahead: Point) {
    assert!(g.try_place_food(ahead));
    g.tick();
    assert!(g.try_place_food(p(0, 0)));
}

#[test]
fn new_game_is_centred_and_waiting() {
    let g = Game::new(20, 20);
    assert_eq!(g.snake().body, vec![p(10, 10)]);
    assert_eq!(g.snake().direction, Direction::Right);
    assert_eq!(g.score(), 0);
    assert!(!g.game_over());
    assert!(!g.game_started());
    assert_eq!((g.width(), g.height()), (20, 20));
    assert!(food_is_free(&g));
}

#[test]
fn odd_grid_centre_rounds_down() {
    let g = Game::new(5, 3);
    assert_eq!(g.snake().body, vec![p(2, 1)]);
}

#[test]
fn non_positive_grid_is_refused() {
    assert!(Game::try_new(0, 5).is_none());
    assert!(Game::try_new(5, 0).is_none());
    assert!(Game::try_new(-3, 4).is_none());
    let g = Game::try_new(4, 6).unwrap();
    assert_eq!(g.snake().body, vec![p(2, 3)]);
}

#[test]
fn tick_before_start_changes_nothing() {
    let mut g = Game::new(20, 20);
    let food = g.food();
    g.tick();
    assert_eq!(g.snake().body, vec![p(10, 10)]);
    assert_eq!(g.food(), food);
    assert!(!g.game_over());
}

#[test]
fn one_tick_moves_head_right() {
    let mut g = Game::new(20, 20);
    g.start_game();
    let food_ahead = g.food() == p(11, 10);
    g.tick();
    assert_eq!(g.snake().body[0], p(11, 10));
    if food_ahead {
        assert_eq!(g.snake().body.len(), 2);
        assert_eq!(g.score(), 1);
    } else {
        assert_eq!(g.snake().body.len(), 1);
        assert_eq!(g.score(), 0);
    }
    assert!(food_is_free(&g));
}

#[test]
fn reversal_is_ignored() {
    let mut g = started();
    g.change_snake_direction(Direction::Left);
    assert_eq!(g.snake().direction, Direction::Right);
    g.tick();
    assert!(!g.game_over());
    assert_eq!(g.snake().body, vec![p(11, 10)]);
}

#[test]
fn turn_is_taken() {
    let mut g = started();
    g.change_snake_direction(Direction::Up);
    g.tick();
    assert_eq!(g.snake().body, vec![p(10, 9)]);
    g.change_snake_direction(Direction::Left);
    g.tick();
    assert_eq!(g.snake().body, vec![p(9, 9)]);
}

#[test]
fn eating_grows_and_scores() {
    let mut g = started();
    assert!(g.try_place_food(p(11, 10)));
    g.tick();
    assert_eq!(g.snake().body, vec![p(11, 10), p(10, 10)]);
    assert_eq!(g.score(), 1);
    assert!(food_is_free(&g));
}

#[test]
fn moving_without_food_keeps_length_and_score() {
    let mut g = started();
    eat_ahead(&mut g, p(11, 10));
    g.tick();
    assert_eq!(g.snake().body, vec![p(12, 10), p(11, 10)]);
    assert_eq!(g.score(), 1);
    assert_eq!(g.food(), p(0, 0));
}

#[test]
fn right_wall_ends_run_without_moving() {
    let mut g = started();
    for _ in 0..9 {
        g.tick();
    }
    assert_eq!(g.snake().body, vec![p(19, 10)]);
    assert!(!g.game_over());
    g.tick();
    assert!(g.game_over());
    assert_eq!(g.snake().body, vec![p(19, 10)]);
    g.tick();
    assert_eq!(g.snake().body, vec![p(19, 10)]);
}

#[test]
fn running_into_body_ends_run() {
    let mut g = started();
    eat_ahead(&mut g, p(11, 10));
    eat_ahead(&mut g, p(12, 10));
    eat_ahead(&mut g, p(13, 10));
    eat_ahead(&mut g, p(14, 10));
    assert_eq!(g.snake().body.len(), 5);
    g.change_snake_direction(Direction::Down);
    g.tick();
    g.change_snake_direction(Direction::Left);
    g.tick();
    let body = vec![p(13, 11), p(14, 11), p(14, 10), p(13, 10), p(12, 10)];
    assert_eq!(g.snake().body, body);
    g.change_snake_direction(Direction::Up);
    g.tick();
    assert!(g.game_over());
    assert_eq!(g.snake().body, body);
    assert_eq!(g.score(), 4);
}

#[test]
fn running_into_tail_ends_run() {
    let mut g = started();
    eat_ahead(&mut g, p(11, 10));
    eat_ahead(&mut g, p(12, 10));
    eat_ahead(&mut g, p(13, 10));
    g.change_snake_direction(Direction::Down);
    g.tick();
    g.change_snake_direction(Direction::Left);
    g.tick();
    let body = vec![p(12, 11), p(13, 11), p(13, 10), p(12, 10)];
    assert_eq!(g.snake().body, body);
    g.change_snake_direction(Direction::Up);
    g.tick();
    assert!(g.game_over());
    assert_eq!(g.snake().body, body);
}

#[test]
fn restart_after_game_over_is_fresh() {
    let mut g = started();
    eat_ahead(&mut g, p(11, 10));
    for _ in 0..9 {
        g.tick();
    }
    assert!(g.game_over());
    g.start_game();
    assert_eq!(g.snake().body, vec![p(10, 10)]);
    assert_eq!(g.snake().direction, Direction::Right);
    assert_eq!(g.score(), 0);
    assert!(!g.game_over());
    assert!(g.game_started());
    assert!(food_is_free(&g));
}

#[test]
fn food_cannot_be_put_on_snake_or_off_grid() {
    let mut g = started();
    assert!(!g.try_place_food(p(10, 10)));
    assert!(!g.try_place_food(p(20, 3)));
    assert!(!g.try_place_food(p(3, -1)));
    assert_eq!(g.food(), p(0, 0));
    assert!(g.try_place_food(p(19, 19)));
    assert_eq!(g.food(), p(19, 19));
}

#[test]
fn food_is_drawn_on_free_cells() {
    for _ in 0..200 {
        let mut g = Game::new(3, 1);
        assert!(food_is_free(&g));
        g.start_game();
        assert!(food_is_free(&g));
        assert_ne!(g.food(), p(1, 0));
    }
}

#[test]
fn food_on_nearly_full_grid_takes_last_free_cell() {
    let mut g = Game::new(2, 1);
    g.start_game();
    assert_eq!(g.snake().body, vec![p(1, 0)]);
    assert_eq!(g.food(), p(0, 0));
}

#[test]
fn one_cell_grid_ends_on_first_move() {
    let mut g = Game::new(1, 1);
    g.start_game();
    assert_eq!(g.snake().body, vec![p(0, 0)]);
    g.tick();
    assert!(g.game_over());
}

#[test]
fn filling_the_grid_keeps_food_and_next_move_ends_run() {
    let mut g = Game::new(2, 1);
    g.start_game();
    g.change_snake_direction(Direction::Up);
    g.change_snake_direction(Direction::Left);
    g.tick();
    assert_eq!(g.snake().body, vec![p(0, 0), p(1, 0)]);
    assert_eq!(g.score(), 1);
    assert_eq!(g.food(), p(0, 0));
    assert!(!g.game_over());
    g.tick();
    assert!(g.game_over());
}

#[test]
fn snake_turns_except_backwards() {
    let mut s = Snake::new(p(3, 3), Direction::Up);
    s.change_direction(Direction::Down);
    assert_eq!(s.direction, Direction::Up);
    s.change_direction(Direction::Left);
    assert_eq!(s.direction, Direction::Left);
    s.change_direction(Direction::Right);
    assert_eq!(s.direction, Direction::Left);
    s.change_direction(Direction::Up);
    assert_eq!(s.direction, Direction::Up);
    assert_eq!(s.body, vec![p(3, 3)]);
}

#[test]
fn snake_occupancy() {
    let mut s = Snake::new(p(1, 1), Direction::Right);
    s.body.push(p(0, 1));
    assert!(s.occupies(p(0, 1)));
    assert!(s.occupies(p(1, 1)));
    assert!(!s.occupies(p(1, 0)));
}

#[test]
fn free_cells_in_scan_order() {
    let s = Snake::new(p(0, 1), Direction::Right);
    assert_eq!(s.free_cells(2, 2), vec![p(0, 0), p(1, 0), p(1, 1)]);
    assert_eq!(s.free_cells(1, 2), vec![p(0, 0)]);
    assert!(s.free_cells(0, 3).is_empty());
}
