//! Top-level state of the game.

use vstd::prelude::*;

verus! {

/// The screen the game is showing.
#[derive(Clone, Copy, Debug, PartialEq, Eq, Structural, Hash)]
pub enum GameState {
    Settings,
    Playing,
}

impl GameState {
    /// The state that follows `self` when the current one ends.
    pub open spec fn spec_next(self) -> GameState {
        match self {
            GameState::Settings => GameState::Playing,
            GameState::Playing => GameState::Settings,
        }
    }

    /// Switches between the settings screen and the running simulation.
    pub fn next(self) -> (out: GameState)
        ensures
            out == self.spec_next(),
    {
        match self {
            GameState::Settings => GameState::Playing,
            GameState::Playing => GameState::Settings,
        }
    }
}

} // verus!
