//! The top-level state machine: each game state owns its own world and
//! schedulers and reports a `StateEvent` once per frame.

pub mod state_event;
pub use state_event::{GameMode, StateEvent};

pub mod ui_action;
pub use ui_action::{menu_event_for, UIAction};

pub mod game_state;
pub use game_state::GameState;

pub mod playing_state;
pub use playing_state::{ControlData, PlayingState};
