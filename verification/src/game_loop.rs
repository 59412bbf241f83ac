//! The scheduler: what happens on one tick of the game loop.
//!
//! The caller waits for a key for at most [`poll_timeout_millis`], hands what
//! it saw to [`GameLoop::tick`], and carries out the [`Action`] it gets back.

use vstd::prelude::*;
use crate::render::{draw, frame, DrawCommand};
use crate::state::{GameState, GameStateView};
use crate::update::update;

verus! {

/// Ticks per second.
pub const FPS: u64 = 60;

/// Ticks that pass without a step between two steps: the game advances on
/// every tick after that many.
pub const FRAME_SKIPS: u64 = 5;

/// The key that ends the game.
pub const QUIT_KEY: char = 'q';

/// How long one tick waits for a key, in milliseconds.
pub fn poll_timeout_millis() -> (millis: u64)
    ensures
        millis == 1000u64 / FPS,
        millis == 16,
{
    1000 / FPS
}

/// A game together with the count of ticks since its last step.
#[derive(Debug)]
pub struct GameLoop {
    pub state: GameState,
    pub frame: u64,
}

/// The mathematical value of a [`GameLoop`].
#[verifier::ext_equal]
pub struct GameLoopView {
    pub state: GameStateView,
    pub frame: u64,
}

/// What the caller is to do after a tick.
#[derive(Debug)]
pub enum Action {
    /// Leave the loop and give the terminal back.
    Quit,
    /// Nothing to draw: go on to the next tick.
    Wait,
    /// Carry out these drawing commands, then go on to the next tick.
    Render(Vec<DrawCommand>),
}

/// The mathematical value of an [`Action`].
#[verifier::ext_equal]
pub enum ActionView {
    Quit,
    Wait,
    Render(Seq<DrawCommand>),
}

impl View for Action {
    type V = ActionView;

    open spec fn view(&self) -> ActionView {
        match self {
            Action::Quit => ActionView::Quit,
            Action::Wait => ActionView::Wait,
            Action::Render(commands) => ActionView::Render(commands@),
        }
    }
}

impl GameLoopView {
    /// The game is well-formed and the count of ticks has not passed the
    /// tick on which a step is due.
    pub open spec fn wf(self) -> bool {
        &&& self.state.wf()
        &&& self.frame <= FRAME_SKIPS
    }

    /// Whether a tick on which `key` was seen ends the game: the game has
    /// ended before, or the key is the quit key.
    pub open spec fn quits(self, key: Option<char>) -> bool {
        self.state.should_quit || key == Some(QUIT_KEY)
    }

    /// Whether a tick on which `key` was seen draws and advances the game.
    pub open spec fn steps(self, key: Option<char>) -> bool {
        !self.quits(key) && self.frame == FRAME_SKIPS
    }

    /// The game once `key` has been noted: a key replaces the last observed
    /// one, and without a key the last observed one stays.
    pub open spec fn observed(self, key: Option<char>) -> GameStateView {
        GameStateView {
            should_quit: self.state.should_quit,
            snake: self.state.snake,
            width: self.state.width,
            height: self.state.height,
            keydown: if key is Some {
                key
            } else {
                self.state.keydown
            },
            food: self.state.food,
        }
    }

    /// The game with its quit flag set and nothing else changed.
    pub open spec fn stopped(self) -> GameStateView {
        GameStateView {
            should_quit: true,
            snake: self.state.snake,
            width: self.state.width,
            height: self.state.height,
            keydown: self.state.keydown,
            food: self.state.food,
        }
    }

    /// The loop after a tick on which `key` was seen.
    ///
    /// The quit key sets the quit flag and ends the tick at once: the key is
    /// not noted, nothing is counted and the game does not advance. Any other
    /// key is noted. Then, if [`FRAME_SKIPS`] ticks have passed since the last
    /// step, the game advances by one step, with `next_food` as the cell the
    /// food moves to if it is eaten, and the count starts again; otherwise the
    /// tick is counted and the game stays as it is.
    pub open spec fn tick(self, key: Option<char>, next_food: (u16, u16)) -> GameLoopView {
        if self.quits(key) {
            GameLoopView { state: self.stopped(), frame: self.frame }
        } else if self.frame == FRAME_SKIPS {
            GameLoopView { state: self.observed(key).step(next_food), frame: 0 }
        } else {
            GameLoopView { state: self.observed(key), frame: (self.frame + 1) as u64 }
        }
    }

    /// The loop after a run of ticks, one for each entry of `keys`, all on
    /// the assumption that food which is eaten moves to `next_food`.
    pub open spec fn run(self, keys: Seq<Option<char>>, next_food: (u16, u16)) -> GameLoopView
        decreases keys.len(),
    {
        if keys.len() == 0 {
            self
        } else {
            self.run(keys.drop_last(), next_food).tick(keys.last(), next_food)
        }
    }

    /// What the caller is to do after a tick on which `key` was seen. On a
    /// tick that advances the game, the commands show the game as it was
    /// before the step, with the key already noted.
    pub open spec fn action(self, key: Option<char>) -> ActionView {
        if self.quits(key) {
            ActionView::Quit
        } else if self.frame == FRAME_SKIPS {
            ActionView::Render(frame(self.observed(key)))
        } else {
            ActionView::Wait
        }
    }
}

impl View for GameLoop {
    type V = GameLoopView;

    open spec fn view(&self) -> GameLoopView {
        GameLoopView { state: self.state@, frame: self.frame }
    }
}

impl GameLoop {
    /// The game is well-formed and the count of ticks is in range.
    pub open spec fn wf(&self) -> bool {
        self@.wf()
    }

    /// A loop around a new game on a grid of the given size, with no tick
    /// counted yet.
    pub fn new(width: u16, height: u16) -> (game: GameLoop)
        requires
            width >= 2,
            height >= 2,
        ensures
            game.wf(),
            game.frame == 0,
            game.state@ == GameStateView::initial(width, height, game.state.food),
            game.state@.in_food_area(game.state.food),
    {
        GameLoop { state: GameState::new(width, height), frame: 0 }
    }

    /// Runs one tick. `key` is the character of the key press that was seen
    /// while waiting, if there was one.
    pub fn tick(&mut self, key: Option<char>) -> (action: Action)
        requires
            old(self).wf(),
        ensures
            final(self).wf(),
            final(self)@ == old(self)@.tick(key, final(self).state.food),
            action@ == old(self)@.action(key),
            old(self)@.quits(key) ==> final(self).state.should_quit && action is Quit,
            !old(self)@.steps(key) ==> final(self).state.snake@ == old(self).state.snake@
                && final(self).state.food == old(self).state.food,
            old(self)@.steps(key) && old(self).state@.eats() ==> final(self).state@.in_food_area(
                final(self).state.food,
            ),
            !old(self)@.quits(key) ==> final(self).frame == (old(self).frame + 1) % (FRAME_SKIPS
                + 1),
    {
        if self.state.should_quit {
            return Action::Quit;
        }
        match key {
            Some(c) => {
                if c == QUIT_KEY {
                    self.state.should_quit = true;
                    return Action::Quit;
                }
                self.state.keydown = Some(c);
            },
            None => {},
        }
        if self.frame == FRAME_SKIPS {
            let commands = draw(&self.state);
            update(&mut self.state);
            self.frame = 0;
            Action::Render(commands)
        } else {
            self.frame = self.frame + 1;
            Action::Wait
        }
    }
}

/// Once the game has ended it stays ended: a later tick changes nothing and
/// asks the caller to quit again.
pub proof fn lemma_quit_is_final(game: GameLoopView, key: Option<char>, next_food: (u16, u16))
    requires
        game.state.should_quit,
    ensures
        game.tick(key, next_food) == game,
        game.action(key) == ActionView::Quit,
{
}

/// The quit key ends the game within the tick that sees it: nothing is drawn,
/// the game does not advance, and only the quit flag changes.
pub proof fn lemma_quit_key_stops_at_once(game: GameLoopView, next_food: (u16, u16))
    ensures
        game.action(Some(QUIT_KEY)) == ActionView::Quit,
        game.tick(Some(QUIT_KEY), next_food).state == game.stopped(),
        game.tick(Some(QUIT_KEY), next_food).state.should_quit,
        game.tick(Some(QUIT_KEY), next_food).frame == game.frame,
{
}

/// A tick that does not end the game draws exactly when it advances the game:
/// when [`FRAME_SKIPS`] ticks have been counted since the last step. What is
/// drawn is the game before the step.
pub proof fn lemma_draws_when_it_steps(game: GameLoopView, key: Option<char>, next_food: (u16, u16))
    requires
        game.wf(),
        !game.quits(key),
    ensures
        game.tick(key, next_food).wf(),
        game.frame == FRAME_SKIPS ==> game.action(key) == ActionView::Render(
            frame(game.observed(key)),
        ) && game.tick(key, next_food).state == game.observed(key).step(next_food)
            && game.tick(key, next_food).frame == 0,
        game.frame < FRAME_SKIPS ==> game.action(key) == ActionView::Wait && game.tick(
            key,
            next_food,
        ).state == game.observed(key) && game.tick(key, next_food).frame == game.frame + 1,
{
}

/// A key is kept until another one replaces it: a tick without a key leaves
/// the last observed key in place, and a tick with one stores it.
pub proof fn lemma_key_is_latched(game: GameLoopView, key: Option<char>, next_food: (u16, u16))
    requires
        !game.quits(key),
    ensures
        key is Some ==> game.tick(key, next_food).state.keydown == key,
        key is None ==> game.tick(key, next_food).state.keydown == game.state.keydown,
{
}

/// Between two steps the game stands still: as long as fewer than
/// [`FRAME_SKIPS`] ticks have been counted, ticks that do not end the game
/// are only counted, and leave the snake and the food where they are. The
/// tick after them is the one that advances the game, so a game that has just
/// stepped steps again on tick `FRAME_SKIPS + 1`.
pub proof fn lemma_steps_once_per_period(
    game: GameLoopView,
    keys: Seq<Option<char>>,
    next_food: (u16, u16),
)
    requires
        game.wf(),
        !game.state.should_quit,
        game.frame + keys.len() <= FRAME_SKIPS,
        forall|i: int| 0 <= i < keys.len() ==> keys[i] != Some(QUIT_KEY),
    ensures
        game.run(keys, next_food).wf(),
        game.run(keys, next_food).frame == game.frame + keys.len(),
        game.run(keys, next_food).state.snake == game.state.snake,
        game.run(keys, next_food).state.food == game.state.food,
        !game.run(keys, next_food).state.should_quit,
        game.frame + keys.len() == FRAME_SKIPS ==> game.run(keys, next_food).steps(None),
    decreases keys.len(),
{
    if keys.len() > 0 {
        lemma_steps_once_per_period(game, keys.drop_last(), next_food);
    }
}

} // verus!
