use vstd::prelude::*;

verus! {

/// Layout axis of a menubar row.
#[derive(Clone, Copy, Debug, Default, PartialEq, Eq, Structural)]
pub enum MenubarOrientation {
    #[default]
    Horizontal,
    Vertical,
}

/// Stable root configuration of a menubar. Note the horizontal default,
/// the opposite of a menu's vertical orientation default.
#[derive(Clone, Copy, Debug, PartialEq, Eq, Structural)]
pub struct MenubarProps {
    orientation: MenubarOrientation,
    loop_focus: bool,
    modal: bool,
    disabled: bool,
}

impl MenubarProps {
    pub closed spec fn spec_orientation(&self) -> MenubarOrientation {
        self.orientation
    }

    pub closed spec fn spec_loop_focus(&self) -> bool {
        self.loop_focus
    }

    pub closed spec fn spec_modal(&self) -> bool {
        self.modal
    }

    pub closed spec fn spec_disabled(&self) -> bool {
        self.disabled
    }

    pub fn new(orientation: MenubarOrientation, loop_focus: bool, modal: bool, disabled: bool) -> (props: Self)
        ensures
            props.spec_orientation() == orientation,
            props.spec_loop_focus() == loop_focus,
            props.spec_modal() == modal,
            props.spec_disabled() == disabled,
    {
        MenubarProps { orientation, loop_focus, modal, disabled }
    }

    pub fn orientation(&self) -> (r: MenubarOrientation)
        ensures
            r == self.spec_orientation(),
    {
        self.orientation
    }

    pub fn loop_focus(&self) -> (r: bool)
        ensures
            r == self.spec_loop_focus(),
    {
        self.loop_focus
    }

    pub fn modal(&self) -> (r: bool)
        ensures
            r == self.spec_modal(),
    {
        self.modal
    }

    pub fn disabled(&self) -> (r: bool)
        ensures
            r == self.spec_disabled(),
    {
        self.disabled
    }
}

impl Default for MenubarProps {
    /// Horizontal, looping, modal and enabled.
    fn default() -> (props: Self)
        ensures
            props.spec_orientation() == MenubarOrientation::Horizontal,
            props.spec_loop_focus(),
            props.spec_modal(),
            !props.spec_disabled(),
    {
        MenubarProps::new(MenubarOrientation::Horizontal, true, true, false)
    }
}

} // verus!
