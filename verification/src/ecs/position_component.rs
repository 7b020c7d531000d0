use vstd::prelude::*;

verus! {

/// Where an entity stands on the flat map, in whole map units.
/// There is no world-bounds clamping in this core; movement saturates only
/// at the limits of the coordinate type itself.
#[derive(Clone, Copy, Debug)]
pub struct PositionComponent {
    pub map_pos: (i64, i64),
}

} // verus!
