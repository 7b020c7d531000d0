use vstd::prelude::*;
use crate::game_state::state_event::StateEvent;

verus! {

/// A stage of the application, handled in a modular way: the main loop
/// simply swaps to a new state as the reported events demand.
pub trait GameState: Sized {
    /// The state's own well-formedness, established at construction and
    /// preserved across frames.
    spec fn inv(&self) -> bool;

    /// Handles user-interface logic for one frame.
    fn ui_logic(&mut self)
        requires
            old(self).inv(),
        ensures
            final(self).inv(),
    ;

    /// Handles state-manipulating logic for one frame and reports the
    /// resulting state event.
    fn state_logic(&mut self) -> (event: StateEvent)
        requires
            old(self).inv(),
        ensures
            final(self).inv(),
    ;

    /// One frame: interface logic first, then state logic; the frame's
    /// event is what the state logic reports.
    fn update(&mut self) -> (event: StateEvent)
        requires
            old(self).inv(),
        ensures
            final(self).inv(),
    {
        self.ui_logic();
        self.state_logic()
    }
}

} // verus!
