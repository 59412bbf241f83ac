use snake::game_loop::{poll_timeout_millis, FPS, FRAME_SKIPS, QUIT_KEY};
use snake::{draw, Action, Direction, DrawCommand, GameLoop, GameState};

fn game_loop(food: (u16, u16)) -> GameLoop {
    GameLoop { state: GameState::with_food(10, 10, food), frame: 0 }
}

#[test]
fn timing_constants() {
    assert_eq!(FPS, 60);
    assert_eq!(FRAME_SKIPS, 5);
    assert_eq!(QUIT_KEY, 'q');
    assert_eq!(poll_timeout_millis(), 16);
}

#[test]
fn new_loop_starts_uncounted() {
    let g = GameLoop::new(10, 10);
    assert_eq!(g.frame, 0);
    assert!(!g.state.should_quit);
    assert_eq!(g.state.snake.segments, vec![(0, 0), (1, 0), (2, 0)]);
    assert!(g.state.food.0 < 9 && g.state.food.1 < 9);
}

#[test]
fn five_ticks_wait_and_the_sixth_steps() {
    let mut g = game_loop((5, 5));
    for i in 0..5 {
        assert!(matches!(g.tick(None), Action::Wait));
        assert_eq!(g.frame, i + 1);
        assert_eq!(g.state.snake.segments, vec![(0, 0), (1, 0), (2, 0)]);
    }
    let before = draw(&g.state);
    match g.tick(None) {
        Action::Render(commands) => assert_eq!(commands, before),
        other => panic!("expected a frame, got {:?}", other),
    }
    assert_eq!(g.frame, 0);
    assert_eq!(g.state.snake.segments, vec![(1, 0), (2, 0), (3, 0)]);
}

#[test]
fn the_game_steps_once_every_six_ticks() {
    let mut g = game_loop((9, 9));
    let mut frames = 0;
    for t in 1..=36u64 {
        match g.tick(None) {
            Action::Render(_) => {
                frames += 1;
                assert_eq!(t % 6, 0);
            },
            Action::Wait => assert_ne!(t % 6, 0),
            Action::Quit => panic!("nobody asked to quit"),
        }
    }
    assert_eq!(frames, 6);
    assert_eq!(g.state.snake.segments, vec![(6, 0), (7, 0), (8, 0)]);
}

#[test]
fn frame_shows_the_state_before_the_step() {
    let mut g = game_loop((5, 5));
    g.frame = 5;
    match g.tick(None) {
        Action::Render(commands) => {
            assert_eq!(commands[3], DrawCommand::MoveTo(0, 0));
            assert_eq!(commands[7], DrawCommand::MoveTo(2, 0));
        },
        other => panic!("expected a frame, got {:?}", other),
    }
    assert_eq!(g.state.snake.segments, vec![(1, 0), (2, 0), (3, 0)]);
}

#[test]
fn quit_key_ends_the_game_without_a_step() {
    let mut g = game_loop((5, 5));
    g.frame = 5;
    g.state.keydown = Some('s');
    assert!(matches!(g.tick(Some('q')), Action::Quit));
    assert!(g.state.should_quit);
    assert_eq!(g.frame, 5);
    assert_eq!(g.state.keydown, Some('s'));
    assert_eq!(g.state.snake.segments, vec![(0, 0), (1, 0), (2, 0)]);
    assert_eq!(g.state.snake.direction, Direction::Right);
    assert_eq!(g.state.food, (5, 5));
}

#[test]
fn ticks_after_quit_change_nothing() {
    let mut g = game_loop((5, 5));
    g.frame = 5;
    assert!(matches!(g.tick(Some('q')), Action::Quit));
    for key in [None, Some('w'), Some('q'), None] {
        assert!(matches!(g.tick(key), Action::Quit));
        assert!(g.state.should_quit);
        assert_eq!(g.frame, 5);
        assert_eq!(g.state.keydown, None);
        assert_eq!(g.state.snake.segments, vec![(0, 0), (1, 0), (2, 0)]);
    }
}

#[test]
fn key_is_latched_until_replaced() {
    let mut g = game_loop((5, 5));
    g.tick(Some('s'));
    assert_eq!(g.state.keydown, Some('s'));
    g.tick(None);
    assert_eq!(g.state.keydown, Some('s'));
    g.tick(Some('x'));
    assert_eq!(g.state.keydown, Some('x'));
    g.tick(None);
    assert_eq!(g.state.keydown, Some('x'));
}

#[test]
fn key_seen_on_the_stepping_tick_steers_that_step() {
    let mut g = game_loop((5, 5));
    g.frame = 5;
    assert!(matches!(g.tick(Some('s')), Action::Render(_)));
    assert_eq!(g.state.snake.direction, Direction::Down);
    assert_eq!(g.state.snake.segments, vec![(1, 0), (2, 0), (2, 1)]);
}

#[test]
fn latched_key_steers_every_later_step() {
    let mut g = game_loop((9, 9));
    g.tick(Some('s'));
    for _ in 0..11 {
        g.tick(None);
    }
    assert_eq!(g.state.snake.direction, Direction::Down);
    assert_eq!(g.state.snake.segments, vec![(2, 0), (2, 1), (2, 2)]);
}

#[test]
fn stepping_tick_relocates_eaten_food_into_the_area() {
    for _ in 0..50 {
        let mut g = game_loop((2, 0));
        g.frame = 5;
        assert!(matches!(g.tick(None), Action::Render(_)));
        assert_eq!(g.state.snake.segments.len(), 4);
        assert!(g.state.food.0 < 9 && g.state.food.1 < 9);
    }
}
