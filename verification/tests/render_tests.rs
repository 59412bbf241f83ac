use snake::{draw, Direction, DrawCommand, GameState, Snake};

#[test]
fn frame_of_the_initial_state() {
    let g = GameState::with_food(10, 10, (5, 0));
    assert_eq!(
        draw(&g),
        vec![
            DrawCommand::Clear,
            DrawCommand::MoveTo(5, 0),
            DrawCommand::Print('x'),
            DrawCommand::MoveTo(0, 0),
            DrawCommand::Print('o'),
            DrawCommand::MoveTo(1, 0),
            DrawCommand::Print('o'),
            DrawCommand::MoveTo(2, 0),
            DrawCommand::Print('o'),
            DrawCommand::Flush,
        ]
    );
}

#[test]
fn frame_has_two_commands_per_segment_and_four_more() {
    let mut g = GameState::with_food(10, 10, (1, 1));
    g.snake = Snake {
        segments: vec![(3, 4), (3, 5), (3, 6), (4, 6), (5, 6)],
        direction: Direction::Right,
    };
    let f = draw(&g);
    assert_eq!(f.len(), 2 * 5 + 4);
    assert_eq!(f[0], DrawCommand::Clear);
    assert_eq!(f[f.len() - 1], DrawCommand::Flush);
    assert_eq!(f.iter().filter(|c| **c == DrawCommand::Flush).count(), 1);
    assert_eq!(f.iter().filter(|c| **c == DrawCommand::Clear).count(), 1);
    assert_eq!(f[3 + 2 * 3], DrawCommand::MoveTo(4, 6));
    assert_eq!(f[4 + 2 * 3], DrawCommand::Print('o'));
}

#[test]
fn frame_of_an_empty_snake_shows_only_the_food() {
    let mut g = GameState::with_food(10, 10, (7, 8));
    g.snake = Snake { segments: vec![], direction: Direction::Up };
    assert_eq!(
        draw(&g),
        vec![
            DrawCommand::Clear,
            DrawCommand::MoveTo(7, 8),
            DrawCommand::Print('x'),
            DrawCommand::Flush,
        ]
    );
}

#[test]
fn draw_does_not_change_the_state() {
    let g = GameState::with_food(10, 10, (5, 0));
    let first = draw(&g);
    let second = draw(&g);
    assert_eq!(first, second);
    assert_eq!(g.snake.segments, vec![(0, 0), (1, 0), (2, 0)]);
}
