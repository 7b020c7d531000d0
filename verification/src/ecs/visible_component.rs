use vstd::prelude::*;

verus! {

/// For entities that should have some visual representation on the screen.
pub struct VisibleComponent {
    pub sprite_sheet_name: String,
    /// 1-based (row, column) grid coordinates into the referenced atlas.
    pub sprite_location: (u16, u16),
}

/// Mathematical value of a `VisibleComponent`.
pub ghost struct VisibleView {
    pub sprite_sheet_name: Seq<char>,
    pub sprite_location: (u16, u16),
}

impl View for VisibleComponent {
    type V = VisibleView;

    open spec fn view(&self) -> VisibleView {
        VisibleView {
            sprite_sheet_name: self.sprite_sheet_name@,
            sprite_location: self.sprite_location,
        }
    }
}

} // verus!
