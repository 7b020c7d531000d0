use vstd::prelude::*;

verus! {

/// Which top-level screen the client should run next.
#[derive(Clone, Copy, Debug, PartialEq, Eq, Structural)]
pub enum GameMode {
    MainMenu,
    Playing,
}

/// Dictates changes to the overall application state, reported by each
/// state's per-frame update.
#[derive(Clone, Copy, Debug, PartialEq, Eq, Structural)]
pub enum StateEvent {
    /// Keep running the current state.
    NoChange,
    /// Quit the whole application.
    Shutdown,
    /// Replace the current state with a fresh one of the given mode.
    ChangeState(GameMode),
}

} // verus!
