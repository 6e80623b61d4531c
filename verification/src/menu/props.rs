use vstd::prelude::*;

verus! {

/// Side of the anchor on which a popup is placed.
#[derive(Clone, Copy, Debug, Default, PartialEq, Eq, Structural)]
pub enum MenuSide {
    Top,
    #[default]
    Bottom,
    Left,
    Right,
    InlineStart,
    InlineEnd,
}

/// Alignment of a popup along its anchor side.
#[derive(Clone, Copy, Debug, Default, PartialEq, Eq, Structural)]
pub enum MenuAlign {
    Start,
    #[default]
    Center,
    End,
}

/// Keyboard navigation axis of a menu's items.
#[derive(Clone, Copy, Debug, Default, PartialEq, Eq, Structural)]
pub enum MenuOrientation {
    #[default]
    Vertical,
    Horizontal,
}

/// Stable root configuration of one menu. The open-change callbacks that the
/// host attaches live with the host; this struct holds the flags the menu
/// logic reads.
#[derive(Clone, Copy, Debug, PartialEq, Eq, Structural)]
pub struct MenuProps {
    disabled: bool,
    modal: bool,
    loop_focus: bool,
    orientation: MenuOrientation,
    close_parent_on_esc: bool,
    highlight_item_on_hover: bool,
}

impl MenuProps {
    pub closed spec fn spec_disabled(&self) -> bool {
        self.disabled
    }

    pub closed spec fn spec_modal(&self) -> bool {
        self.modal
    }

    pub closed spec fn spec_loop_focus(&self) -> bool {
        self.loop_focus
    }

    pub closed spec fn spec_orientation(&self) -> MenuOrientation {
        self.orientation
    }

    pub closed spec fn spec_close_parent_on_esc(&self) -> bool {
        self.close_parent_on_esc
    }

    pub closed spec fn spec_highlight_item_on_hover(&self) -> bool {
        self.highlight_item_on_hover
    }

    pub fn new(
        disabled: bool,
        modal: bool,
        loop_focus: bool,
        orientation: MenuOrientation,
        close_parent_on_esc: bool,
        highlight_item_on_hover: bool,
    ) -> (props: Self)
        ensures
            props.spec_disabled() == disabled,
            props.spec_modal() == modal,
            props.spec_loop_focus() == loop_focus,
            props.spec_orientation() == orientation,
            props.spec_close_parent_on_esc() == close_parent_on_esc,
            props.spec_highlight_item_on_hover() == highlight_item_on_hover,
    {
        MenuProps {
            disabled,
            modal,
            loop_focus,
            orientation,
            close_parent_on_esc,
            highlight_item_on_hover,
        }
    }

    pub fn disabled(&self) -> (r: bool)
        ensures
            r == self.spec_disabled(),
    {
        self.disabled
    }

    pub fn modal(&self) -> (r: bool)
        ensures
            r == self.spec_modal(),
    {
        self.modal
    }

    pub fn loop_focus(&self) -> (r: bool)
        ensures
            r == self.spec_loop_focus(),
    {
        self.loop_focus
    }

    pub fn orientation(&self) -> (r: MenuOrientation)
        ensures
            r == self.spec_orientation(),
    {
        self.orientation
    }

    pub fn close_parent_on_esc(&self) -> (r: bool)
        ensures
            r == self.spec_close_parent_on_esc(),
    {
        self.close_parent_on_esc
    }

    pub fn highlight_item_on_hover(&self) -> (r: bool)
        ensures
            r == self.spec_highlight_item_on_hover(),
    {
        self.highlight_item_on_hover
    }
}

} // verus!
