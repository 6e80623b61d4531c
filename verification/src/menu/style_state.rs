//! Typed state that each menu part hands to its `style_with_state` hook.
use vstd::prelude::*;

use crate::menu::kinds::{MenuInstantKind, MenuParentKind};
use crate::menu::props::{MenuAlign, MenuSide};

verus! {

/// State of the menu root part.
#[derive(Clone, Copy, Debug, PartialEq, Eq, Structural)]
pub struct MenuRootStyleState {
    pub open: bool,
    pub disabled: bool,
    pub parent_kind: MenuParentKind,
    pub instant: MenuInstantKind,
}

impl MenuRootStyleState {
    pub fn new(open: bool, disabled: bool, parent_kind: MenuParentKind, instant: MenuInstantKind) -> (state: Self)
        ensures
            state == (MenuRootStyleState { open, disabled, parent_kind, instant }),
    {
        MenuRootStyleState { open, disabled, parent_kind, instant }
    }
}

/// State of the portal part.
#[derive(Clone, Copy, Debug, PartialEq, Eq, Structural)]
pub struct MenuPortalStyleState {
    pub open: bool,
    pub mounted: bool,
}

impl MenuPortalStyleState {
    pub fn new(open: bool, mounted: bool) -> (state: Self)
        ensures
            state == (MenuPortalStyleState { open, mounted }),
    {
        MenuPortalStyleState { open, mounted }
    }
}

/// State of the backdrop part; `interactive` is false when the menu was
/// opened by hover, whose backdrop is pointer-inert.
#[derive(Clone, Copy, Debug, PartialEq, Eq, Structural)]
pub struct MenuBackdropStyleState {
    pub open: bool,
    pub mounted: bool,
    pub interactive: bool,
}

impl MenuBackdropStyleState {
    pub fn new(open: bool, mounted: bool, interactive: bool) -> (state: Self)
        ensures
            state == (MenuBackdropStyleState { open, mounted, interactive }),
    {
        MenuBackdropStyleState { open, mounted, interactive }
    }
}

/// State of the positioner part. The measured anchor and popup bounds and
/// the available size stay with the host, which pairs them with this state.
#[derive(Clone, Copy, Debug, PartialEq, Eq, Structural)]
pub struct MenuPositionerStyleState {
    pub open: bool,
    pub mounted: bool,
    pub side: MenuSide,
    pub align: MenuAlign,
    pub anchor_hidden: bool,
    pub nested: bool,
    pub instant: MenuInstantKind,
}

impl MenuPositionerStyleState {
    pub fn new(
        open: bool,
        mounted: bool,
        side: MenuSide,
        align: MenuAlign,
        anchor_hidden: bool,
        nested: bool,
        instant: MenuInstantKind,
    ) -> (state: Self)
        ensures
            state == (MenuPositionerStyleState { open, mounted, side, align, anchor_hidden, nested, instant }),
    {
        MenuPositionerStyleState { open, mounted, side, align, anchor_hidden, nested, instant }
    }
}

/// State of the popup part.
#[derive(Clone, Copy, Debug, PartialEq, Eq, Structural)]
pub struct MenuPopupStyleState {
    pub open: bool,
    pub mounted: bool,
    pub side: MenuSide,
    pub align: MenuAlign,
    pub nested: bool,
    pub instant: MenuInstantKind,
}

impl MenuPopupStyleState {
    pub fn new(open: bool, mounted: bool, side: MenuSide, align: MenuAlign, nested: bool, instant: MenuInstantKind) -> (state: Self)
        ensures
            state == (MenuPopupStyleState { open, mounted, side, align, nested, instant }),
    {
        MenuPopupStyleState { open, mounted, side, align, nested, instant }
    }
}

/// State of a plain item.
#[derive(Clone, Copy, Debug, PartialEq, Eq, Structural)]
pub struct MenuItemStyleState {
    pub highlighted: bool,
    pub disabled: bool,
}

impl MenuItemStyleState {
    pub fn new(highlighted: bool, disabled: bool) -> (state: Self)
        ensures
            state == (MenuItemStyleState { highlighted, disabled }),
    {
        MenuItemStyleState { highlighted, disabled }
    }
}

/// State of a link item.
#[derive(Clone, Copy, Debug, PartialEq, Eq, Structural)]
pub struct MenuLinkItemStyleState {
    pub highlighted: bool,
}

impl MenuLinkItemStyleState {
    pub fn new(highlighted: bool) -> (state: Self)
        ensures
            state == (MenuLinkItemStyleState { highlighted }),
    {
        MenuLinkItemStyleState { highlighted }
    }
}

/// State of a checkbox item.
#[derive(Clone, Copy, Debug, PartialEq, Eq, Structural)]
pub struct MenuCheckboxItemStyleState {
    pub checked: bool,
    pub highlighted: bool,
    pub disabled: bool,
}

impl MenuCheckboxItemStyleState {
    pub fn new(checked: bool, highlighted: bool, disabled: bool) -> (state: Self)
        ensures
            state == (MenuCheckboxItemStyleState { checked, highlighted, disabled }),
    {
        MenuCheckboxItemStyleState { checked, highlighted, disabled }
    }
}

/// State of a checkbox item's indicator; `present` says whether it renders.
#[derive(Clone, Copy, Debug, PartialEq, Eq, Structural)]
pub struct MenuCheckboxItemIndicatorStyleState {
    pub checked: bool,
    pub highlighted: bool,
    pub disabled: bool,
    pub present: bool,
}

impl MenuCheckboxItemIndicatorStyleState {
    pub fn new(checked: bool, highlighted: bool, disabled: bool, present: bool) -> (state: Self)
        ensures
            state == (MenuCheckboxItemIndicatorStyleState { checked, highlighted, disabled, present }),
    {
        MenuCheckboxItemIndicatorStyleState { checked, highlighted, disabled, present }
    }
}

/// State of a radio group.
#[derive(Clone, Copy, Debug, PartialEq, Eq, Structural)]
pub struct MenuRadioGroupStyleState {
    pub disabled: bool,
}

impl MenuRadioGroupStyleState {
    pub fn new(disabled: bool) -> (state: Self)
        ensures
            state == (MenuRadioGroupStyleState { disabled }),
    {
        MenuRadioGroupStyleState { disabled }
    }
}

/// State of a radio item.
#[derive(Clone, Copy, Debug, PartialEq, Eq, Structural)]
pub struct MenuRadioItemStyleState {
    pub checked: bool,
    pub highlighted: bool,
    pub disabled: bool,
}

impl MenuRadioItemStyleState {
    pub fn new(checked: bool, highlighted: bool, disabled: bool) -> (state: Self)
        ensures
            state == (MenuRadioItemStyleState { checked, highlighted, disabled }),
    {
        MenuRadioItemStyleState { checked, highlighted, disabled }
    }
}

/// State of a radio item's indicator; `present` says whether it renders.
#[derive(Clone, Copy, Debug, PartialEq, Eq, Structural)]
pub struct MenuRadioItemIndicatorStyleState {
    pub checked: bool,
    pub highlighted: bool,
    pub disabled: bool,
    pub present: bool,
}

impl MenuRadioItemIndicatorStyleState {
    pub fn new(checked: bool, highlighted: bool, disabled: bool, present: bool) -> (state: Self)
        ensures
            state == (MenuRadioItemIndicatorStyleState { checked, highlighted, disabled, present }),
    {
        MenuRadioItemIndicatorStyleState { checked, highlighted, disabled, present }
    }
}

/// State of a submenu trigger item.
#[derive(Clone, Copy, Debug, PartialEq, Eq, Structural)]
pub struct MenuSubmenuTriggerStyleState {
    pub open: bool,
    pub highlighted: bool,
    pub disabled: bool,
}

impl MenuSubmenuTriggerStyleState {
    pub fn new(open: bool, highlighted: bool, disabled: bool) -> (state: Self)
        ensures
            state == (MenuSubmenuTriggerStyleState { open, highlighted, disabled }),
    {
        MenuSubmenuTriggerStyleState { open, highlighted, disabled }
    }
}

/// State of an item group.
#[derive(Clone, Copy, Debug, PartialEq, Eq, Structural)]
pub struct MenuGroupStyleState {
    pub disabled: bool,
}

impl MenuGroupStyleState {
    pub fn new(disabled: bool) -> (state: Self)
        ensures
            state == (MenuGroupStyleState { disabled }),
    {
        MenuGroupStyleState { disabled }
    }
}

/// State of the trigger part. `focused` starts false; the host fills it in.
#[derive(Clone, Debug)]
pub struct MenuTriggerStyleState<P> {
    pub open: bool,
    pub disabled: bool,
    pub active_trigger: bool,
    pub payload_present: bool,
    pub payload: Option<P>,
    pub focused: bool,
}

impl<P> MenuTriggerStyleState<P> {
    pub fn new(
        open: bool,
        disabled: bool,
        active_trigger: bool,
        payload_present: bool,
        payload: Option<P>,
    ) -> (state: Self)
        ensures
            state == (MenuTriggerStyleState {
                open,
                disabled,
                active_trigger,
                payload_present,
                payload,
                focused: false,
            }),
    {
        MenuTriggerStyleState { open, disabled, active_trigger, payload_present, payload, focused: false }
    }
}

/// State of a group label: it has no facts of its own.
#[derive(Clone, Copy, Debug, Default, PartialEq, Eq, Structural)]
pub struct MenuGroupLabelStyleState;

} // verus!
