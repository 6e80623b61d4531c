//! Writing direction and the physical-arrow mapping shared by menus and the
//! menubar.
use vstd::prelude::*;

verus! {

/// Horizontal writing direction of the surrounding UI.
#[derive(Clone, Copy, Debug, Default, PartialEq, Eq, Structural)]
pub enum TextDirection {
    #[default]
    Ltr,
    Rtl,
}

/// A physical horizontal arrow key.
#[derive(Clone, Copy, Debug, PartialEq, Eq, Structural)]
pub enum HorizontalArrowKey {
    Left,
    Right,
}

/// A logical horizontal step in reading order.
#[derive(Clone, Copy, Debug, PartialEq, Eq, Structural)]
pub enum HorizontalDirection {
    Next,
    Previous,
}

/// The logical step a physical arrow means: right is next in left-to-right
/// text and previous in right-to-left text.
pub open spec fn arrow_step(direction: TextDirection, key: HorizontalArrowKey) -> HorizontalDirection {
    if (key == HorizontalArrowKey::Right) == (direction == TextDirection::Ltr) {
        HorizontalDirection::Next
    } else {
        HorizontalDirection::Previous
    }
}

impl TextDirection {
    /// Maps a physical horizontal arrow to a logical step, flipping in RTL.
    pub fn horizontal_arrow(self, key: HorizontalArrowKey) -> (step: HorizontalDirection)
        ensures
            step == arrow_step(self, key),
    {
        match (self, key) {
            (TextDirection::Ltr, HorizontalArrowKey::Right) | (TextDirection::Rtl, HorizontalArrowKey::Left) => {
                HorizontalDirection::Next
            },
            _ => HorizontalDirection::Previous,
        }
    }
}

} // verus!
