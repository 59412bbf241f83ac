//! The rules of a terminal snake game, verified with Verus.
//!
//! The crate holds the game's state, the rule that advances it by one
//! simulation step, the list of drawing commands that shows it, and the
//! scheduler that decides on every tick whether to wait, to draw and step, or
//! to stop. Reading keys and writing to the terminal is left to the caller.

pub mod direction;
pub mod food;
pub mod game_loop;
pub mod render;
pub mod snake;
pub mod state;
pub mod update;

pub use direction::Direction;
pub use food::determine_food_location;
pub use game_loop::{Action, GameLoop};
pub use render::{draw, DrawCommand};
pub use snake::Snake;
pub use state::GameState;
pub use update::{update, update_with_food};
