use vstd::prelude::*;
use crate::game_state::state_event::{GameMode, StateEvent};

verus! {

/// Possible user-interface actions a menu can trigger.
#[derive(Clone, Copy, Debug, PartialEq, Eq, Structural)]
pub enum UIAction {
    NewGame,
    LoadGame,
    QuitGame,
}

/// The state event the main menu emits for a clicked action.
/// "Load" is shown in the menu but not wired to anything yet, so it keeps
/// the menu running, like a frame with no click at all.
pub fn menu_event_for(action: Option<UIAction>) -> (event: StateEvent)
    ensures
        event == (match action {
            Some(UIAction::NewGame) => StateEvent::ChangeState(GameMode::Playing),
            Some(UIAction::QuitGame) => StateEvent::Shutdown,
            _ => StateEvent::NoChange,
        }),
{
    match action {
        Some(UIAction::NewGame) => StateEvent::ChangeState(GameMode::Playing),
        Some(UIAction::QuitGame) => StateEvent::Shutdown,
        _ => StateEvent::NoChange,
    }
}

} // verus!
