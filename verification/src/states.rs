//! High-level application flow states: initialization, loading, UI screens,
//! and the main in-game state, with run-condition queries over them.

use vstd::prelude::*;

verus! {

/// The major phases of the application.
#[derive(Debug, Clone, PartialEq, Eq, Hash, Structural)]
pub enum AppState {
    /// Initial startup state, for core initialization steps.
    AppInit,
    /// Preloading before the main logic starts.
    Preload,
    /// A UI-driven screen before entering the game.
    Screen(UiState),
    /// Asset loading, with its own substate.
    Loading(LoadingStates),
    /// Loading finished, gameplay not yet entered.
    PostLoad,
    /// The main in-game state, with its own substate.
    InGame(InGameStates),
}

/// UI and pre-game screen states.
#[derive(Debug, Clone, PartialEq, Eq, Hash, Structural)]
pub enum UiState {
    Menu,
    Settings,
}

/// Asset loading phases.
#[derive(Debug, Clone, PartialEq, Eq, Hash, Structural)]
pub enum LoadingStates {
    BaseGen,
    WaterGen,
    CaveGen,
}

/// In-game substates.
#[derive(Debug, Clone, PartialEq, Eq, Hash, Structural)]
pub enum InGameStates {
    Game,
    Pause,
    Combat,
    GameOver,
}

impl Default for AppState {
    fn default() -> (r: Self)
        ensures
            r is AppInit,
    {
        AppState::AppInit
    }
}

impl Default for UiState {
    fn default() -> (r: Self)
        ensures
            r is Menu,
    {
        UiState::Menu
    }
}

impl Default for LoadingStates {
    fn default() -> (r: Self)
        ensures
            r is BaseGen,
    {
        LoadingStates::BaseGen
    }
}

impl Default for InGameStates {
    fn default() -> (r: Self)
        ensures
            r is Game,
    {
        InGameStates::Game
    }
}

/// Whether the application is in any in-game substate.
pub fn is_state_in_game(state: &AppState) -> (r: bool)
    ensures
        r == (*state is InGame),
{
    matches!(*state, AppState::InGame(_))
}

/// Whether the application is displaying a UI screen.
pub fn is_state_in_ui(state: &AppState) -> (r: bool)
    ensures
        r == (*state is Screen),
{
    matches!(*state, AppState::Screen(_))
}

} // verus!
