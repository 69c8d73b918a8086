use vstd::prelude::*;

verus! {

/// The top-level states the game moves through: startup, the menu, solving
/// a puzzle, and admiring a solved one.
#[derive(Clone, Copy, Debug, PartialEq, Eq, Hash, Structural)]
pub enum GameState {
    Setup,
    Menu,
    PuzzleSolving,
    PuzzleSolved,
}

impl Default for GameState {
    /// The game starts in setup.
    fn default() -> (r: GameState)
        ensures
            r == GameState::Setup,
    {
        GameState::Setup
    }
}

/// The one transition out of setup: straight to the menu.
pub fn transition_setup_to_menu() -> (r: GameState)
    ensures
        r == GameState::Menu,
{
    GameState::Menu
}

/// While the solved board is shown, any dismissal input returns the game
/// to the menu; until then the state stays as it is.
pub fn puzzle_solved_interaction(dismissed: bool) -> (r: Option<GameState>)
    ensures
        r == (if dismissed {
            Some(GameState::Menu)
        } else {
            None::<GameState>
        }),
{
    if dismissed {
        Some(GameState::Menu)
    } else {
        None
    }
}

} // verus!
