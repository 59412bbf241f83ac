//! What is drawn for a state: a list of commands for the terminal.

use vstd::prelude::*;
use crate::state::{GameState, GameStateView};

verus! {

/// The character that shows the food.
pub const FOOD_GLYPH: char = 'x';

/// The character that shows one cell of the snake.
pub const SNAKE_GLYPH: char = 'o';

/// One command for the terminal.
#[derive(Clone, Copy, Debug, PartialEq, Eq, Structural)]
pub enum DrawCommand {
    /// Wipe the whole screen.
    Clear,
    /// Put the cursor on the cell in the given column and row.
    MoveTo(u16, u16),
    /// Print one character where the cursor is.
    Print(char),
    /// Send everything queued so far to the screen.
    Flush,
}

/// The commands that draw the snake: for each of its cells, from the tail to
/// the head, one that moves the cursor there and one that prints the cell.
pub open spec fn snake_commands(segments: Seq<(u16, u16)>) -> Seq<DrawCommand> {
    Seq::new(
        (2 * segments.len()) as nat,
        |i: int|
            if i % 2 == 0 {
                DrawCommand::MoveTo(segments[i / 2].0, segments[i / 2].1)
            } else {
                DrawCommand::Print(SNAKE_GLYPH)
            },
    )
}

/// The commands that show a state: the screen is wiped, the food is drawn,
/// then the snake, and everything is sent to the screen once, at the end.
pub open spec fn frame(state: GameStateView) -> Seq<DrawCommand> {
    seq![
        DrawCommand::Clear,
        DrawCommand::MoveTo(state.food.0, state.food.1),
        DrawCommand::Print(FOOD_GLYPH),
    ] + snake_commands(state.snake.segments) + seq![DrawCommand::Flush]
}

/// The commands that show `state`, in the order in which they are to be
/// carried out.
pub fn draw(state: &GameState) -> (commands: Vec<DrawCommand>)
    ensures
        commands@ == frame(state@),
        commands@.len() == 2 * state.snake.segments@.len() + 4,
{
    let mut commands: Vec<DrawCommand> = Vec::new();
    commands.push(DrawCommand::Clear);
    commands.push(DrawCommand::MoveTo(state.food.0, state.food.1));
    commands.push(DrawCommand::Print(FOOD_GLYPH));
    let ghost start = commands@;
    let count = state.snake.segments.len();
    let mut i: usize = 0;
    while i < count
        invariant
            i <= count,
            count == state.snake.segments@.len(),
            commands@ == start + snake_commands(state.snake.segments@.take(i as int)),
        decreases count - i,
    {
        let segment = state.snake.segments[i];
        commands.push(DrawCommand::MoveTo(segment.0, segment.1));
        commands.push(DrawCommand::Print(SNAKE_GLYPH));
        i += 1;
    }
    assert(state.snake.segments@.take(count as int) == state.snake.segments@);
    commands.push(DrawCommand::Flush);
    commands
}

} // verus!
