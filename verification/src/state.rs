//! The state of one game, and the rule that advances it by one step.

use vstd::prelude::*;
use crate::direction::Direction;
use crate::food::determine_food_location;
use crate::snake::{Snake, SnakeView};

verus! {

/// Everything one game consists of.
///
/// `width` and `height` are the size of the grid in columns and rows, fixed
/// for the whole game. `keydown` is the last key that was observed; it stays
/// until another key replaces it, so a key pressed once steers every later
/// step. `food` is the cell of the food, column first.
#[derive(Debug)]
pub struct GameState {
    pub should_quit: bool,
    pub snake: Snake,
    pub width: u16,
    pub height: u16,
    pub keydown: Option<char>,
    pub food: (u16, u16),
}

/// The mathematical value of a [`GameState`].
#[verifier::ext_equal]
pub struct GameStateView {
    pub should_quit: bool,
    pub snake: SnakeView,
    pub width: u16,
    pub height: u16,
    pub keydown: Option<char>,
    pub food: (u16, u16),
}

impl GameStateView {
    /// The snake has a head, and the grid has room for food: food never goes
    /// into the last column or the last row, so a grid needs two of each.
    pub open spec fn wf(self) -> bool {
        &&& self.snake.wf()
        &&& self.width >= 2
        &&& self.height >= 2
    }

    /// Whether food may be put on `cell`: any cell but those of the last
    /// column and the last row.
    pub open spec fn in_food_area(self, cell: (u16, u16)) -> bool {
        &&& cell.0 < self.width - 1
        &&& cell.1 < self.height - 1
    }

    /// Whether the next step makes the snake grow: its head lies on the food.
    pub open spec fn eats(self) -> bool {
        self.snake.head() == self.food
    }

    /// The state at the start of a game on a grid of the given size, with the
    /// food on `food`.
    pub open spec fn initial(width: u16, height: u16, food: (u16, u16)) -> GameStateView {
        GameStateView {
            should_quit: false,
            snake: SnakeView::initial(),
            width,
            height,
            keydown: None,
            food,
        }
    }

    /// The state after one step.
    ///
    /// The snake first turns as the last observed key asks. If its head lies
    /// on the food, it keeps its tail and the food moves to `next_food`;
    /// otherwise it loses its tail and the food stays. Then the new head is
    /// added, one cell beyond the old head along the heading. The comparison
    /// with the food is made before the head moves, so the snake grows on the
    /// step after the one that brought its head onto the food.
    pub open spec fn step(self, next_food: (u16, u16)) -> GameStateView {
        let direction = self.snake.direction.resolve(self.keydown);
        let kept = if self.eats() {
            self.snake.segments
        } else {
            self.snake.segments.drop_first()
        };
        GameStateView {
            should_quit: self.should_quit,
            snake: SnakeView {
                segments: kept.push(direction.displace(self.snake.head())),
                direction,
            },
            width: self.width,
            height: self.height,
            keydown: self.keydown,
            food: if self.eats() {
                next_food
            } else {
                self.food
            },
        }
    }
}

impl View for GameState {
    type V = GameStateView;

    open spec fn view(&self) -> GameStateView {
        GameStateView {
            should_quit: self.should_quit,
            snake: self.snake@,
            width: self.width,
            height: self.height,
            keydown: self.keydown,
            food: self.food,
        }
    }
}

impl GameState {
    /// The snake has a head, and the grid has room for food.
    pub open spec fn wf(&self) -> bool {
        self@.wf()
    }

    /// The state at the start of a game with the food on a given cell.
    pub fn with_food(width: u16, height: u16, food: (u16, u16)) -> (state: GameState)
        ensures
            state@ == GameStateView::initial(width, height, food),
            state.wf() <==> width >= 2 && height >= 2,
    {
        GameState {
            should_quit: false,
            snake: Snake::new(),
            width,
            height,
            keydown: None,
            food,
        }
    }

    /// The state at the start of a game, with the food on a cell chosen at
    /// random among those where food may go.
    pub fn new(width: u16, height: u16) -> (state: GameState)
        requires
            width >= 2,
            height >= 2,
        ensures
            state@ == GameStateView::initial(width, height, state.food),
            state@.in_food_area(state.food),
            state.wf(),
    {
        let mut state = GameState::with_food(width, height, (0, 0));
        state.food = determine_food_location(&state);
        state
    }
}

/// A step leaves the snake as long as it was, or makes it one cell longer,
/// and it is one cell longer exactly when the head lay on the food. The snake
/// never loses its head.
pub proof fn lemma_step_length(state: GameStateView, next_food: (u16, u16))
    requires
        state.snake.wf(),
    ensures
        state.step(next_food).snake.segments.len() == state.snake.segments.len() + (if state.eats() {
            1int
        } else {
            0int
        }),
        state.step(next_food).snake.segments.len() >= 1,
        state.step(next_food).snake.wf(),
        state.step(next_food).wf() == state.wf(),
{
}

/// A step moves the body along: every cell but the new head is a cell the
/// snake covered before, in the same order, and only the tail may be gone.
pub proof fn lemma_step_body(state: GameStateView, next_food: (u16, u16))
    requires
        state.snake.wf(),
    ensures
        state.step(next_food).snake.segments.drop_last() == (if state.eats() {
            state.snake.segments
        } else {
            state.snake.segments.drop_first()
        }),
        state.step(next_food).snake.head() == state.step(next_food).snake.direction.displace(
            state.snake.head(),
        ),
{
    let kept = if state.eats() {
        state.snake.segments
    } else {
        state.snake.segments.drop_first()
    };
    let head = state.step(next_food).snake.direction.displace(state.snake.head());
    assert(kept.push(head).drop_last() == kept);
}

/// A step never turns the snake round on the spot.
pub proof fn lemma_step_never_reverses(state: GameStateView, next_food: (u16, u16))
    ensures
        state.step(next_food).snake.direction != state.snake.direction.opposite(),
{
}

/// With no key observed, a step keeps the heading, and the head advances by
/// one cell along it.
pub proof fn lemma_step_without_key(state: GameStateView, next_food: (u16, u16))
    requires
        state.snake.wf(),
        state.keydown is None,
    ensures
        state.step(next_food).snake.direction == state.snake.direction,
        state.step(next_food).snake.head() == state.snake.direction.displace(state.snake.head()),
        state.step(next_food).keydown is None,
{
}

/// A step does not consume the observed key, so the step after it resolves
/// the same key again and keeps the heading that the first one chose.
pub proof fn lemma_second_step_keeps_heading(
    state: GameStateView,
    first_food: (u16, u16),
    second_food: (u16, u16),
)
    ensures
        state.step(first_food).keydown == state.keydown,
        state.step(first_food).step(second_food).snake.direction == state.step(
            first_food,
        ).snake.direction,
{
}

/// A step touches nothing but the snake and the food, and the food only when
/// it is eaten; then it goes where the step was told to put it.
pub proof fn lemma_step_frame(state: GameStateView, next_food: (u16, u16))
    ensures
        state.step(next_food).should_quit == state.should_quit,
        state.step(next_food).width == state.width,
        state.step(next_food).height == state.height,
        state.step(next_food).keydown == state.keydown,
        state.step(next_food).food == (if state.eats() {
            next_food
        } else {
            state.food
        }),
{
}

} // verus!
