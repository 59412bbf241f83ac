//! One simulation step.

use vstd::prelude::*;
use crate::food::determine_food_location;
use crate::state::GameState;

verus! {

/// Advances the game by one step, moving the food to `next_food` if the snake
/// eats on this step.
pub fn update_with_food(state: &mut GameState, next_food: (u16, u16))
    requires
        old(state).snake.wf(),
    ensures
        final(state)@ == old(state)@.step(next_food),
        final(state).snake.wf(),
        final(state).wf() == old(state).wf(),
{
    state.snake.direction = state.snake.direction.resolve(state.keydown);
    let head = state.snake.head();
    if head.0 == state.food.0 && head.1 == state.food.1 {
        state.food = next_food;
    } else {
        state.snake.segments.remove(0);
    }
    let new_head = state.snake.direction.displace(head);
    state.snake.segments.push(new_head);
}

/// Advances the game by one step: the snake turns as the last observed key
/// asks, then moves one cell ahead; if its head lay on the food, it grows by
/// that cell and the food moves to a cell chosen at random.
pub fn update(state: &mut GameState)
    requires
        old(state).wf(),
    ensures
        final(state)@ == old(state)@.step(final(state).food),
        final(state).wf(),
        old(state)@.eats() ==> final(state)@.in_food_area(final(state).food),
        !old(state)@.eats() ==> final(state).food == old(state).food,
        final(state).snake.segments@.len() == old(state).snake.segments@.len() + (if old(
            state,
        )@.eats() {
            1int
        } else {
            0int
        }),
        final(state).snake.segments@.len() >= 1,
        final(state).snake.direction == old(state).snake.direction.resolve(old(state).keydown),
        final(state).snake.direction != old(state).snake.direction.opposite(),
        old(state).keydown is None ==> final(state).snake.direction == old(state).snake.direction,
        final(state)@.snake.head() == final(state).snake.direction.displace(
            old(state)@.snake.head(),
        ),
{
    let head = state.snake.head();
    let next_food = if head.0 == state.food.0 && head.1 == state.food.1 {
        determine_food_location(state)
    } else {
        state.food
    };
    update_with_food(state, next_food);
}

} // verus!
