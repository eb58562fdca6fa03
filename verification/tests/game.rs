use rand::Rng;
use snake::direction::Direction;
use snake::game::{Game, Tick};
use snake::input::{Flow, Input};

fn fresh() -> Game {
    Game::new()
}

/// A round with the head at `(x, y)` and the apple out of the way.
fn round_at(x: usize, y: usize) -> Game {
    let mut game = fresh();
    game.start_at(x, y, (0, 0));
    game
}

#[test]
fn new_game_has_the_grid_and_no_snake() {
    let game = fresh();
    assert_eq!(game.cell_width(), 32);
    assert_eq!(game.cell_height(), 24);
    assert_eq!(game.direction(), Direction::Right);
    assert_eq!(game.moved(), Direction::Right);
    assert!(game.snake().is_empty());
    assert_eq!(game.apple(), (0, 0));
}

#[test]
fn start_at_lays_three_cells_to_the_left_of_the_head() {
    let mut game = fresh();
    game.start_at(10, 7, (3, 4));
    assert_eq!(game.snake(), &vec![(10, 7), (9, 7), (8, 7)]);
    assert_eq!(game.direction(), Direction::Right);
    assert_eq!(game.apple(), (3, 4));
    assert_eq!(game.score(), 0);
}

#[test]
fn start_at_resets_the_heading_and_the_score() {
    let mut game = round_at(10, 10);
    game.turn(Direction::Down);
    assert_eq!(game.step((0, 0)), Tick::Moved);
    assert_eq!(game.moved(), Direction::Down);
    game.turn(Direction::Left);
    game.start_at(2, 0, (31, 23));
    assert_eq!(game.snake(), &vec![(2, 0), (1, 0), (0, 0)]);
    assert_eq!(game.direction(), Direction::Right);
    assert_eq!(game.moved(), Direction::Right);
    assert_eq!(game.apple(), (31, 23));
}

#[test]
fn start_puts_the_head_away_from_the_walls() {
    let mut game = fresh();
    for _ in 0..500 {
        game.start();
        let snake = game.snake().clone();
        assert_eq!(snake.len(), 3);
        let (x, y) = snake[0];
        assert!(5 <= x && x < 26, "column {}", x);
        assert!(5 <= y && y < 18, "row {}", y);
        assert_eq!(snake[1], (x - 1, y));
        assert_eq!(snake[2], (x - 2, y));
        assert_eq!(game.direction(), Direction::Right);
        assert_eq!(game.score(), 0);
        let apple = game.apple();
        assert!(apple.0 < 32 && apple.1 < 23);
    }
}

#[test]
fn start_does_not_always_pick_the_same_place() {
    let mut game = fresh();
    game.start();
    let first = game.snake()[0];
    let mut moved = false;
    for _ in 0..500 {
        game.start();
        if game.snake()[0] != first {
            moved = true;
        }
    }
    assert!(moved);
}

#[test]
fn random_location_is_never_in_the_bottom_row() {
    let mut game = fresh();
    for _ in 0..2000 {
        let (x, y) = game.get_random_location();
        assert!(x < 32);
        assert!(y < 23);
    }
}

#[test]
fn random_location_varies_and_leaves_the_game_alone() {
    let mut game = round_at(10, 10);
    let first = game.get_random_location();
    let mut varied = false;
    for _ in 0..500 {
        if game.get_random_location() != first {
            varied = true;
        }
    }
    assert!(varied);
    assert_eq!(game.snake(), &vec![(10, 10), (9, 10), (8, 10)]);
    assert_eq!(game.apple(), (0, 0));
    assert_eq!(game.direction(), Direction::Right);
}

#[test]
fn step_moves_the_snake_one_cell_to_the_right() {
    let mut game = round_at(10, 10);
    assert_eq!(game.step((1, 1)), Tick::Moved);
    assert_eq!(game.snake(), &vec![(11, 10), (10, 10), (9, 10)]);
    assert_eq!(game.apple(), (0, 0));
    assert_eq!(game.score(), 0);
}

#[test]
fn step_moves_along_each_heading() {
    let mut game = round_at(10, 10);
    game.turn(Direction::Up);
    assert_eq!(game.step((1, 1)), Tick::Moved);
    assert_eq!(game.snake(), &vec![(10, 9), (10, 10), (9, 10)]);
    game.turn(Direction::Left);
    assert_eq!(game.step((1, 1)), Tick::Moved);
    assert_eq!(game.snake(), &vec![(9, 9), (10, 9), (10, 10)]);
    game.turn(Direction::Down);
    assert_eq!(game.step((1, 1)), Tick::Moved);
    assert_eq!(game.snake(), &vec![(9, 10), (9, 9), (10, 9)]);
    game.turn(Direction::Right);
    assert_eq!(game.step((1, 1)), Tick::Moved);
    assert_eq!(game.snake(), &vec![(10, 10), (9, 10), (9, 9)]);
}

#[test]
fn step_on_the_apple_grows_the_snake_and_moves_the_apple() {
    let mut game = fresh();
    game.start_at(10, 10, (11, 10));
    assert_eq!(game.step((5, 5)), Tick::Moved);
    assert_eq!(game.snake(), &vec![(11, 10), (10, 10), (9, 10)]);
    assert_eq!(game.apple(), (11, 10));
    assert_eq!(game.score(), 0);
    assert!(game.eats());
    assert_eq!(game.step((5, 5)), Tick::Moved);
    assert_eq!(game.snake(), &vec![(12, 10), (11, 10), (10, 10), (9, 10)]);
    assert_eq!(game.apple(), (5, 5));
    assert_eq!(game.score(), 1);
    assert!(!game.eats());
    assert_eq!(game.step((6, 6)), Tick::Moved);
    assert_eq!(game.snake(), &vec![(13, 10), (12, 10), (11, 10), (10, 10)]);
    assert_eq!(game.apple(), (5, 5));
    assert_eq!(game.score(), 1);
}

#[test]
fn step_ends_the_round_at_the_right_wall() {
    let mut game = round_at(30, 10);
    assert_eq!(game.step((1, 1)), Tick::Moved);
    assert_eq!(game.snake()[0], (31, 10));
    assert_eq!(game.step((1, 1)), Tick::GameOver);
}

#[test]
fn step_ends_the_round_at_the_left_wall() {
    let mut game = round_at(2, 10);
    game.turn(Direction::Up);
    assert_eq!(game.step((1, 1)), Tick::Moved);
    game.turn(Direction::Left);
    assert_eq!(game.step((1, 1)), Tick::Moved);
    assert_eq!(game.step((1, 1)), Tick::Moved);
    assert_eq!(game.snake()[0], (0, 9));
    assert_eq!(game.step((1, 1)), Tick::GameOver);
}

#[test]
fn step_ends_the_round_at_the_top_wall() {
    let mut game = round_at(10, 1);
    game.turn(Direction::Up);
    assert_eq!(game.step((1, 1)), Tick::Moved);
    assert_eq!(game.snake()[0], (10, 0));
    assert_eq!(game.step((1, 1)), Tick::GameOver);
}

#[test]
fn step_ends_the_round_at_the_bottom_wall() {
    let mut game = round_at(10, 22);
    game.turn(Direction::Down);
    assert_eq!(game.step((1, 1)), Tick::Moved);
    assert_eq!(game.snake()[0], (10, 23));
    assert_eq!(game.step((1, 1)), Tick::GameOver);
}

#[test]
fn step_at_the_wall_has_let_go_of_the_tail() {
    let mut game = round_at(31, 10);
    assert_eq!(game.step((1, 1)), Tick::GameOver);
    assert_eq!(game.snake(), &vec![(31, 10), (30, 10)]);
    assert_eq!(game.apple(), (0, 0));
}

#[test]
fn step_at_the_wall_on_the_apple_keeps_the_tail_and_moves_the_apple() {
    let mut game = fresh();
    game.start_at(31, 10, (31, 10));
    assert_eq!(game.step((4, 4)), Tick::GameOver);
    assert_eq!(game.snake(), &vec![(31, 10), (30, 10), (29, 10)]);
    assert_eq!(game.apple(), (4, 4));
}

/// Grows the snake to five cells and winds it into its own body.
fn wound_up() -> Game {
    let mut game = fresh();
    game.start_at(10, 10, (11, 10));
    assert_eq!(game.step((12, 10)), Tick::Moved);
    assert_eq!(game.step((12, 10)), Tick::Moved);
    assert_eq!(game.step((0, 0)), Tick::Moved);
    assert_eq!(game.snake().len(), 5);
    game.turn(Direction::Down);
    assert_eq!(game.step((0, 0)), Tick::Moved);
    game.turn(Direction::Left);
    assert_eq!(game.step((0, 0)), Tick::Moved);
    game.turn(Direction::Up);
    assert_eq!(game.step((0, 0)), Tick::Moved);
    game
}

#[test]
fn step_onto_the_body_is_seen_on_the_next_tick() {
    let mut game = wound_up();
    assert_eq!(game.snake(), &vec![(12, 10), (12, 11), (13, 11), (13, 10), (12, 10)]);
    assert!(game.bites_itself());
    let before = game.snake().clone();
    assert_eq!(game.step((0, 0)), Tick::GameOver);
    assert_eq!(game.snake(), &before);
    assert_eq!(game.direction(), Direction::Up);
}

#[test]
fn bites_itself_is_false_for_a_straight_snake() {
    let game = round_at(10, 10);
    assert!(!game.bites_itself());
}

#[test]
fn two_turns_within_one_tick_cannot_fold_the_snake_back() {
    let mut game = round_at(10, 10);
    game.turn(Direction::Up);
    game.turn(Direction::Left);
    assert_eq!(game.direction(), Direction::Up);
    assert_eq!(game.step((0, 0)), Tick::Moved);
    assert_eq!(game.snake(), &vec![(10, 9), (10, 10), (9, 10)]);
    assert!(!game.bites_itself());
    assert_eq!(game.step((0, 0)), Tick::Moved);
    assert_eq!(game.snake(), &vec![(10, 8), (10, 9), (10, 10)]);
}

#[test]
fn inputs_within_one_tick_cannot_fold_the_snake_back() {
    let mut game = round_at(10, 10);
    assert_eq!(game.handle_input(Input::Arrow(Direction::Up)), Flow::Continue);
    assert_eq!(game.handle_input(Input::Arrow(Direction::Left)), Flow::Continue);
    assert_eq!(game.direction(), Direction::Up);
    assert_eq!(game.step((0, 0)), Tick::Moved);
    assert_eq!(game.snake()[0], (10, 9));
    assert_eq!(game.handle_input(Input::Arrow(Direction::Right)), Flow::Continue);
    assert_eq!(game.handle_input(Input::Arrow(Direction::Down)), Flow::Continue);
    assert_eq!(game.direction(), Direction::Right);
    assert_eq!(game.step((0, 0)), Tick::Moved);
    assert_eq!(game.snake(), &vec![(11, 9), (10, 9), (10, 10)]);
}

#[test]
fn the_last_request_that_is_no_reversal_counts() {
    let mut game = round_at(10, 10);
    game.turn(Direction::Up);
    game.turn(Direction::Down);
    assert_eq!(game.direction(), Direction::Down);
    game.turn(Direction::Left);
    assert_eq!(game.direction(), Direction::Down);
    game.turn(Direction::Right);
    assert_eq!(game.direction(), Direction::Right);
    assert_eq!(game.moved(), Direction::Right);
}

#[test]
fn a_move_makes_the_heading_the_last_move() {
    let mut game = round_at(10, 10);
    game.turn(Direction::Up);
    assert_eq!(game.moved(), Direction::Right);
    assert_eq!(game.step((0, 0)), Tick::Moved);
    assert_eq!(game.moved(), Direction::Up);
    game.turn(Direction::Down);
    assert_eq!(game.direction(), Direction::Up);
    game.turn(Direction::Left);
    assert_eq!(game.direction(), Direction::Left);
}

#[test]
fn a_tick_that_ends_the_round_leaves_the_last_move_as_it_was() {
    let mut game = round_at(31, 10);
    game.turn(Direction::Up);
    game.turn(Direction::Right);
    assert_eq!(game.step((0, 0)), Tick::GameOver);
    assert_eq!(game.moved(), Direction::Right);
    assert_eq!(game.direction(), Direction::Right);
}

#[test]
fn turn_steers_and_refuses_to_reverse() {
    let mut game = round_at(10, 10);
    game.turn(Direction::Left);
    assert_eq!(game.direction(), Direction::Right);
    game.turn(Direction::Down);
    assert_eq!(game.direction(), Direction::Down);
    assert_eq!(game.step((0, 0)), Tick::Moved);
    game.turn(Direction::Up);
    assert_eq!(game.direction(), Direction::Down);
    assert_eq!(game.snake(), &vec![(10, 11), (10, 10), (9, 10)]);
}

#[test]
fn handle_input_steers_on_arrows() {
    let mut game = round_at(10, 10);
    assert_eq!(game.handle_input(Input::Arrow(Direction::Up)), Flow::Continue);
    assert_eq!(game.direction(), Direction::Up);
    assert_eq!(game.step((0, 0)), Tick::Moved);
    assert_eq!(game.handle_input(Input::Arrow(Direction::Down)), Flow::Continue);
    assert_eq!(game.direction(), Direction::Up);
    assert_eq!(game.handle_input(Input::Arrow(Direction::Left)), Flow::Continue);
    assert_eq!(game.direction(), Direction::Left);
}

#[test]
fn handle_input_stops_on_quit_and_escape() {
    let mut game = round_at(10, 10);
    assert_eq!(game.handle_input(Input::Quit), Flow::Stop);
    assert_eq!(game.handle_input(Input::Escape), Flow::Stop);
    assert_eq!(game.direction(), Direction::Right);
    assert_eq!(game.snake(), &vec![(10, 10), (9, 10), (8, 10)]);
}

#[test]
fn handle_input_ignores_the_rest() {
    let mut game = round_at(10, 10);
    assert_eq!(game.handle_input(Input::OtherKey), Flow::Continue);
    assert_eq!(game.handle_input(Input::Other), Flow::Continue);
    assert_eq!(game.direction(), Direction::Right);
}

#[test]
fn tick_moves_like_step_when_nothing_is_eaten() {
    let mut game = round_at(10, 10);
    assert_eq!(game.tick(), Tick::Moved);
    assert_eq!(game.snake(), &vec![(11, 10), (10, 10), (9, 10)]);
    assert_eq!(game.apple(), (0, 0));
}

#[test]
fn tick_on_the_apple_grows_the_snake_and_respawns_above_the_bottom_row() {
    for _ in 0..300 {
        let mut game = fresh();
        game.start_at(10, 23, (10, 23));
        assert_eq!(game.tick(), Tick::Moved);
        assert_eq!(game.snake(), &vec![(11, 23), (10, 23), (9, 23), (8, 23)]);
        assert_eq!(game.score(), 1);
        let apple = game.apple();
        assert!(apple.0 < 32);
        assert!(apple.1 < 23);
    }
}

#[test]
fn tick_ends_the_round_at_the_wall_and_on_the_body() {
    let mut game = round_at(31, 10);
    assert_eq!(game.tick(), Tick::GameOver);
    let mut game = wound_up();
    assert_eq!(game.tick(), Tick::GameOver);
}

#[test]
fn a_round_from_a_random_start_runs_into_the_right_wall() {
    let mut game = fresh();
    game.start();
    let (x, y) = game.snake()[0];
    let mut moves = 0;
    while game.tick() == Tick::Moved {
        moves += 1;
        assert!(game.snake().len() >= 3);
        assert_eq!(game.snake()[0], (x + moves, y));
        assert!(moves < 32);
    }
    assert_eq!(moves, 31 - x);
}

#[test]
fn score_counts_the_cells_beyond_the_first_three() {
    let mut game = fresh();
    game.start_at(5, 5, (5, 5));
    for i in 0..10 {
        assert_eq!(game.score(), i);
        assert!(game.eats());
        assert_eq!(game.step((6 + i, 5)), Tick::Moved);
    }
    assert_eq!(game.score(), 10);
    assert_eq!(game.snake().len(), 13);
    assert_eq!(game.snake()[0], (15, 5));
    assert_eq!(game.snake()[12], (3, 5));
}

fn share_an_edge(a: (usize, usize), b: (usize, usize)) -> bool {
    let dx = if a.0 > b.0 { a.0 - b.0 } else { b.0 - a.0 };
    let dy = if a.1 > b.1 { a.1 - b.1 } else { b.1 - a.1 };
    dx + dy == 1
}

#[test]
fn a_random_walk_keeps_the_snake_on_the_grid_and_in_one_piece() {
    let headings = [Direction::Up, Direction::Down, Direction::Left, Direction::Right];
    let mut rng = rand::thread_rng();
    let mut game = fresh();
    for _ in 0..200 {
        game.start();
        loop {
            let last_move = game.moved();
            for _ in 0..rng.gen_range(0, 4) {
                game.turn(headings[rng.gen_range(0, 4)]);
                assert_ne!(game.direction(), last_move.opposite());
                assert_eq!(game.moved(), last_move);
            }
            let heading = game.direction();
            let before = game.snake().clone();
            let apple = game.apple();
            let eating = game.eats();
            let bitten = game.bites_itself();
            match game.tick() {
                Tick::GameOver => {
                    if bitten {
                        assert_eq!(game.snake(), &before);
                        assert_eq!(game.apple(), apple);
                    }
                    break;
                }
                Tick::Moved => {
                    assert!(!bitten);
                    assert_eq!(game.moved(), heading);
                    assert_ne!(game.snake()[0], before[1]);
                    let after = game.snake();
                    assert!(after.iter().all(|c| c.0 < 32 && c.1 < 24));
                    assert!(after.windows(2).all(|pair| share_an_edge(pair[0], pair[1])));
                    if eating {
                        assert_eq!(&after[1..], &before[..]);
                        assert!(game.apple().1 < 23);
                    } else {
                        assert_eq!(&after[1..], &before[..before.len() - 1]);
                        assert_eq!(game.apple(), apple);
                    }
                    assert_eq!(game.score(), after.len() - 3);
                }
            }
        }
    }
}
