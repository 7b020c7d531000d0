use vstd::prelude::*;
use crate::assets::sprite_sheet::SpritePos;

verus! {

/// For entities that have some visual representation on the screen: which
/// sprite sheet to draw from and which cell of its grid is shown now.
pub struct VisualComponent {
    pub sprite_sheet_name: String,
    /// 1-based (row, column) grid coordinates into the referenced sheet.
    pub sprite_location: SpritePos,
}

/// Mathematical value of a `VisualComponent`.
pub ghost struct VisualView {
    pub sprite_sheet_name: Seq<char>,
    pub sprite_location: SpritePos,
}

impl View for VisualComponent {
    type V = VisualView;

    open spec fn view(&self) -> VisualView {
        VisualView {
            sprite_sheet_name: self.sprite_sheet_name@,
            sprite_location: self.sprite_location,
        }
    }
}

impl VisualComponent {
    /// An equal-valued copy; components are handed around by value.
    pub fn duplicate(&self) -> (copy: VisualComponent)
        ensures
            copy@ == self@,
    {
        VisualComponent {
            sprite_sheet_name: self.sprite_sheet_name.clone(),
            sprite_location: self.sprite_location,
        }
    }
}

/// For entities that are animated; paired with a visual component. The
/// named animation of the referenced sheet plays one step every `speed`
/// ticks: `speed` is "ticks per frame advance", not wall-clock time, and
/// `timer` counts the ticks remaining until the next advance.
pub struct AnimationComponent {
    pub name: String,
    pub index: usize,
    pub speed: u16,
    pub timer: u16,
}

/// Mathematical value of an `AnimationComponent`.
pub ghost struct AnimationView {
    pub name: Seq<char>,
    pub index: int,
    pub speed: int,
    pub timer: int,
}

impl View for AnimationComponent {
    type V = AnimationView;

    open spec fn view(&self) -> AnimationView {
        AnimationView {
            name: self.name@,
            index: self.index as int,
            speed: self.speed as int,
            timer: self.timer as int,
        }
    }
}

/// The animation state after its name is set: switching to a different
/// name restarts that animation from its first step, with a full hold
/// timer, so a switch mid-cycle never shows a stale frame index. Setting
/// the name already playing changes nothing.
pub open spec fn set_animation(a: AnimationView, new_name: Seq<char>) -> AnimationView {
    if a.name == new_name {
        a
    } else {
        AnimationView { name: new_name, index: 0, speed: a.speed, timer: a.speed }
    }
}

impl AnimationComponent {
    /// A fresh component playing "idle" from its first step, advancing
    /// every `speed` ticks.
    pub fn new(speed: u16) -> (anim: AnimationComponent)
        ensures
            anim@ == (AnimationView {
                name: "idle"@,
                index: 0,
                speed: speed as int,
                timer: speed as int,
            }),
    {
        AnimationComponent { name: "idle".to_owned(), index: 0, speed, timer: speed }
    }

    /// Switches to the named animation: a different name resets the frame
    /// index to 0 and the hold timer to `speed`, even mid-cycle.
    pub fn set(&mut self, new_name: &str)
        ensures
            final(self)@ == set_animation(old(self)@, new_name@),
    {
        let owned = new_name.to_owned();
        if self.name == owned {
        } else {
            self.name = owned;
            self.index = 0;
            self.timer = self.speed;
        }
    }

    /// An equal-valued copy; components are handed around by value.
    pub fn duplicate(&self) -> (copy: AnimationComponent)
        ensures
            copy@ == self@,
    {
        AnimationComponent {
            name: self.name.clone(),
            index: self.index,
            speed: self.speed,
            timer: self.timer,
        }
    }
}

} // verus!
