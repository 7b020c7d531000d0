use vstd::prelude::*;

verus! {

/// For entities steered by the player: how many map units a full-speed
/// step moves them per tick. Read-only after creation.
#[derive(Clone, Copy, Debug, PartialEq, Eq, Structural)]
pub struct PlayerControlComponent {
    pub speed: u32,
}

} // verus!
