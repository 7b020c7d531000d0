use vstd::prelude::*;

verus! {

/// Which volume control in the settings should be applied to a clip.
#[derive(Clone, Copy, Debug, PartialEq, Eq, Structural)]
pub enum ClipCategory {
    Voice,
    Music,
    Effects,
}

/// Holds the information needed for playing a single audio file.
pub struct AudioClip {
    path: String,
    clip_category: ClipCategory,
}

/// Mathematical value of an `AudioClip`.
pub ghost struct AudioClipView {
    pub path: Seq<char>,
    pub clip_category: ClipCategory,
}

impl View for AudioClip {
    type V = AudioClipView;

    closed spec fn view(&self) -> AudioClipView {
        AudioClipView { path: self.path@, clip_category: self.clip_category }
    }
}

impl AudioClip {
    pub fn new(path: String, clip_category: ClipCategory) -> (clip: AudioClip)
        ensures
            clip@ == (AudioClipView { path: path@, clip_category }),
    {
        AudioClip { path, clip_category }
    }

    /// The file the clip is decoded from, for the audio backend.
    pub fn path(&self) -> (p: &String)
        ensures
            p@ == self@.path,
    {
        &self.path
    }

    /// The volume category the clip belongs to.
    pub fn category(&self) -> (c: ClipCategory)
        ensures
            c == self@.clip_category,
    {
        self.clip_category
    }
}

} // verus!
