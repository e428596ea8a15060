//! Small display-layer states that the operator toggles.

use vstd::prelude::*;

verus! {

/// Whether the caption window fills the screen or shows a subtitle band.
#[derive(Clone, Copy, Debug, PartialEq, Eq, Structural, Default)]
pub enum DisplayMode {
    #[default]
    Fullscreen,
    Subtitle,
}

impl DisplayMode {
    /// Flip between the two display modes.
    pub fn swap(&mut self)
        ensures
            *old(self) is Fullscreen <==> *final(self) is Subtitle,
    {
        *self = match *self {
            DisplayMode::Fullscreen => DisplayMode::Subtitle,
            DisplayMode::Subtitle => DisplayMode::Fullscreen,
        };
    }
}

/// Which view the control window shows: the normal controls or the
/// configuration modal.
#[derive(Clone, Copy, Debug, PartialEq, Eq, Structural, Default)]
pub enum State {
    #[default]
    Normal,
    Config,
}

} // verus!
