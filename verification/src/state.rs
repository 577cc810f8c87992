//! The screens of the game.

use vstd::prelude::*;

verus! {

/// The screen that the game shows.
#[derive(Clone, Copy, PartialEq, Eq, Structural, Debug, Hash)]
pub enum AppState {
    Loading,
    MainMenu,
    Playing,
    RoomMenu,
    GameOverMenu,
}

impl Default for AppState {
    /// The game starts on the loading screen.
    fn default() -> (r: Self)
        ensures
            r == AppState::Loading,
    {
        AppState::Loading
    }
}

} // verus!
