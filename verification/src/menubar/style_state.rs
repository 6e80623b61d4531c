use vstd::prelude::*;

use crate::menubar::props::MenubarOrientation;

verus! {

/// Typed state for the menubar root's `style_with_state` hook.
#[derive(Clone, Copy, Debug, PartialEq, Eq, Structural)]
pub struct MenubarStyleState {
    pub orientation: MenubarOrientation,
    pub modal: bool,
    pub has_submenu_open: bool,
    pub disabled: bool,
}

impl MenubarStyleState {
    pub fn new(orientation: MenubarOrientation, modal: bool, has_submenu_open: bool, disabled: bool) -> (state: Self)
        ensures
            state == (MenubarStyleState { orientation, modal, has_submenu_open, disabled }),
    {
        MenubarStyleState { orientation, modal, has_submenu_open, disabled }
    }
}

} // verus!
