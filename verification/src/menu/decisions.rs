//! The decisions the menu parts' event handlers make, as functions from the
//! facts a handler reads to what it should do. The host performs the
//! resulting action (opening, focusing, scheduling a timer).
use vstd::prelude::*;

use crate::direction::{arrow_step, HorizontalArrowKey, HorizontalDirection, TextDirection};
use crate::menu::kinds::{MenuItemKind, MenuMove, MenuOpenChangeReason, MenuOpenChangeSource, MenuParentKind};
use crate::menu::props::{MenuAlign, MenuSide};
use crate::menu::text::{chars_of, char_is_control, is_control};

verus! {

/// Whether an open-change request goes ahead: a disabled menu never opens.
pub fn open_change_allowed(menu_disabled: bool, next_open: bool) -> (r: bool)
    ensures
        r == !(menu_disabled && next_open),
{
    !(menu_disabled && next_open)
}

/// Whether closing returns focus to the trigger: not for focus-out closes,
/// and not for menubar-hosted menus closed by an outside press or a sibling
/// handoff (focus moves to the new branch).
pub fn returns_focus_on_close(open: bool, reason: MenuOpenChangeReason, hosted_in_menubar: bool) -> (r: bool)
    ensures
        r == (!open && reason != MenuOpenChangeReason::FocusOut && !(hosted_in_menubar && (reason
            == MenuOpenChangeReason::OutsidePress || reason == MenuOpenChangeReason::SiblingOpen))),
{
    let menubar_skips = hosted_in_menubar && (reason == MenuOpenChangeReason::OutsidePress || reason
        == MenuOpenChangeReason::SiblingOpen);
    !open && reason != MenuOpenChangeReason::FocusOut && !menubar_skips
}

/// Whether activating an item goes ahead, and if so whether it closes the
/// menu tree: `Some(close_on_click)` for an enabled, non-submenu item of an
/// enabled menu; `None` otherwise (including unknown items).
pub fn item_activation_outcome(menu_disabled: bool, activation: Option<(MenuItemKind, bool, bool)>) -> (r: Option<bool>)
    ensures
        r == (match activation {
            Some((kind, disabled, close_on_click)) => if menu_disabled || disabled || kind
                == MenuItemKind::SubmenuTrigger {
                None
            } else {
                Some(close_on_click)
            },
            None => None,
        }),
{
    if menu_disabled {
        return None;
    }
    match activation {
        Some((kind, disabled, close_on_click)) => if disabled || kind == MenuItemKind::SubmenuTrigger {
            None
        } else {
            Some(close_on_click)
        },
        None => None,
    }
}

/// What keyboard activation of the highlighted item does.
#[derive(Clone, Copy, Debug, PartialEq, Eq, Structural)]
pub enum MenuHighlightedAction {
    Nothing,
    OpenSubmenu(usize),
    Activate(usize),
}

/// Keyboard activation of the highlighted item: nothing without an enabled
/// highlighted item, open its branch for a submenu trigger, else activate.
pub fn highlighted_item_action(highlighted: Option<(usize, MenuItemKind, bool, bool)>) -> (r: MenuHighlightedAction)
    ensures
        r == (match highlighted {
            Some((index, kind, disabled, _)) => if disabled {
                MenuHighlightedAction::Nothing
            } else if kind == MenuItemKind::SubmenuTrigger {
                MenuHighlightedAction::OpenSubmenu(index)
            } else {
                MenuHighlightedAction::Activate(index)
            },
            None => MenuHighlightedAction::Nothing,
        }),
{
    match highlighted {
        Some((index, kind, disabled, _)) => if disabled {
            MenuHighlightedAction::Nothing
        } else if kind == MenuItemKind::SubmenuTrigger {
            MenuHighlightedAction::OpenSubmenu(index)
        } else {
            MenuHighlightedAction::Activate(index)
        },
        None => MenuHighlightedAction::Nothing,
    }
}

/// The branch an "open submenu" arrow opens: the highlighted item when it is
/// an enabled submenu trigger.
pub fn highlighted_submenu_to_open(highlighted: Option<(usize, MenuItemKind, bool, bool)>) -> (r: Option<usize>)
    ensures
        r == (match highlighted {
            Some((index, kind, disabled, _)) => if !disabled && kind == MenuItemKind::SubmenuTrigger {
                Some(index)
            } else {
                None
            },
            None => None,
        }),
{
    match highlighted {
        Some((index, kind, disabled, _)) => if !disabled && kind == MenuItemKind::SubmenuTrigger {
            Some(index)
        } else {
            None
        },
        None => None,
    }
}

/// Whether a "close submenu" arrow closes this menu: only submenus do.
pub fn closes_own_submenu(parent_kind: MenuParentKind) -> (r: bool)
    ensures
        r == (parent_kind == MenuParentKind::Submenu),
{
    parent_kind == MenuParentKind::Submenu
}

/// What a left-button press on a menu trigger does.
#[derive(Clone, Copy, Debug, PartialEq, Eq, Structural)]
pub enum MenuTriggerPress {
    /// A disabled trigger ignores the press.
    Ignore,
    /// A menubar trigger of a closed menu opens on press-down and marks the
    /// press so its own click does not close it again.
    OpenFromMenubar,
    /// A menubar trigger of an open menu clears the marker; its click closes.
    ArmMenubarClose,
    /// A standalone trigger toggles to this open value.
    SetOpen(bool),
}

/// Decides a trigger press from whether the trigger is disabled, hosted in a
/// menubar, and whether its menu was open.
pub fn trigger_press(disabled: bool, in_menubar: bool, was_open: bool) -> (r: MenuTriggerPress)
    ensures
        r == (if disabled {
            MenuTriggerPress::Ignore
        } else if in_menubar {
            if was_open { MenuTriggerPress::ArmMenubarClose } else { MenuTriggerPress::OpenFromMenubar }
        } else {
            MenuTriggerPress::SetOpen(!was_open)
        }),
{
    if disabled {
        MenuTriggerPress::Ignore
    } else if in_menubar {
        if was_open {
            MenuTriggerPress::ArmMenubarClose
        } else {
            MenuTriggerPress::OpenFromMenubar
        }
    } else {
        MenuTriggerPress::SetOpen(!was_open)
    }
}

/// Whether a trigger's click consults the press marker at all: only an
/// enabled menubar trigger of an open menu closes on click.
pub fn trigger_click_may_close(disabled: bool, in_menubar: bool, was_open: bool) -> (r: bool)
    ensures
        r == (!disabled && in_menubar && was_open),
{
    !disabled && in_menubar && was_open
}

/// The trigger's focus-tracking facts: whether it is a tab stop and its tab
/// index. A menubar trigger is a tab stop exactly when it owns the
/// menubar's roving stop (disabled ones stay reachable); a standalone
/// trigger is one unless disabled.
pub fn trigger_tab_stop(menubar_tab_stop: Option<bool>, disabled: bool) -> (r: (bool, isize))
    ensures
        r == (match menubar_tab_stop {
            Some(stop) => if stop { (true, 0isize) } else { (false, -1isize) },
            None => if disabled { (false, -1isize) } else { (true, 0isize) },
        }),
{
    match menubar_tab_stop {
        Some(stop) => if stop {
            (true, 0)
        } else {
            (false, -1)
        },
        None => if disabled {
            (false, -1)
        } else {
            (true, 0)
        },
    }
}

/// What a hover change on a menu trigger does.
#[derive(Clone, Copy, Debug, PartialEq, Eq, Structural)]
pub enum MenuTriggerHover {
    Nothing,
    /// A menubar trigger hovered while a sibling menu is open takes the
    /// roving highlight, and opens its menu when `open` holds.
    MenubarFollow { open: bool },
    /// Cancel pending hover timers and open now.
    OpenNow,
    /// Schedule a delayed hover open.
    ScheduleOpen,
    /// Cancel pending hover timers (no close delay).
    CancelHover,
    /// Schedule a delayed hover close.
    ScheduleClose,
}

/// Decides a trigger hover change. Menubar triggers follow hover only while
/// a menu of the bar is open; other triggers act only when enabled with
/// `open_on_hover`, opening (now or after the delay) on enter and scheduling
/// a close (or cancelling timers) on leave.
pub fn trigger_hover(
    hovered: bool,
    in_menubar: bool,
    menubar_has_submenu_open: bool,
    was_open: bool,
    disabled: bool,
    open_on_hover: bool,
    open_delay: u64,
    close_delay: u64,
) -> (r: MenuTriggerHover)
    ensures
        r == (if in_menubar {
            if hovered && menubar_has_submenu_open {
                MenuTriggerHover::MenubarFollow { open: !was_open && !disabled }
            } else {
                MenuTriggerHover::Nothing
            }
        } else if disabled || !open_on_hover {
            MenuTriggerHover::Nothing
        } else if hovered {
            if open_delay == 0 { MenuTriggerHover::OpenNow } else { MenuTriggerHover::ScheduleOpen }
        } else if close_delay == 0 {
            MenuTriggerHover::CancelHover
        } else {
            MenuTriggerHover::ScheduleClose
        }),
{
    if in_menubar {
        if hovered && menubar_has_submenu_open {
            return MenuTriggerHover::MenubarFollow { open: !was_open && !disabled };
        }
        return MenuTriggerHover::Nothing;
    }
    if disabled || !open_on_hover {
        return MenuTriggerHover::Nothing;
    }
    if hovered {
        if open_delay == 0 {
            MenuTriggerHover::OpenNow
        } else {
            MenuTriggerHover::ScheduleOpen
        }
    } else if close_delay == 0 {
        MenuTriggerHover::CancelHover
    } else {
        MenuTriggerHover::ScheduleClose
    }
}

/// The open value a press on a submenu trigger requests: none when disabled
/// or when an open branch opened on hover (clicks never toggle it closed).
pub fn submenu_trigger_press(disabled: bool, child_open: bool, open_on_hover: bool) -> (r: Option<bool>)
    ensures
        r == (if disabled || (child_open && open_on_hover) { None } else { Some(!child_open) }),
{
    if disabled {
        return None;
    }
    if child_open && open_on_hover {
        return None;
    }
    Some(!child_open)
}

/// What hovering onto a submenu trigger does after cancelling a pending
/// child close: open the branch unless it is open, pointer movement has not
/// been seen, or hover opening is off.
#[derive(Clone, Copy, Debug, PartialEq, Eq, Structural)]
pub enum MenuSubmenuHoverOpen {
    Nothing,
    OpenNow,
    ScheduleOpen,
}

pub fn submenu_hover_open(disabled: bool, open_on_hover: bool, child_open: bool, allow_mouse_enter: bool, open_delay: u64) -> (r: MenuSubmenuHoverOpen)
    ensures
        r == (if disabled || !open_on_hover || child_open || !allow_mouse_enter {
            MenuSubmenuHoverOpen::Nothing
        } else if open_delay == 0 {
            MenuSubmenuHoverOpen::OpenNow
        } else {
            MenuSubmenuHoverOpen::ScheduleOpen
        }),
{
    if disabled || !open_on_hover || child_open || !allow_mouse_enter {
        MenuSubmenuHoverOpen::Nothing
    } else if open_delay == 0 {
        MenuSubmenuHoverOpen::OpenNow
    } else {
        MenuSubmenuHoverOpen::ScheduleOpen
    }
}

/// The physical side a logical side resolves to in the given direction.
pub fn resolve_logical_side(side: MenuSide, direction: TextDirection) -> (r: MenuSide)
    ensures
        r == (match side {
            MenuSide::InlineStart => if direction == TextDirection::Ltr { MenuSide::Left } else { MenuSide::Right },
            MenuSide::InlineEnd => if direction == TextDirection::Ltr { MenuSide::Right } else { MenuSide::Left },
            _ => side,
        }),
{
    match (side, direction) {
        (MenuSide::InlineStart, TextDirection::Ltr) => MenuSide::Left,
        (MenuSide::InlineStart, TextDirection::Rtl) => MenuSide::Right,
        (MenuSide::InlineEnd, TextDirection::Ltr) => MenuSide::Right,
        (MenuSide::InlineEnd, TextDirection::Rtl) => MenuSide::Left,
        _ => side,
    }
}

/// The physical side across the trigger from `side`; logical sides have
/// none and map to themselves.
pub open spec fn opposite_side(side: MenuSide) -> MenuSide {
    match side {
        MenuSide::Top => MenuSide::Bottom,
        MenuSide::Bottom => MenuSide::Top,
        MenuSide::Left => MenuSide::Right,
        MenuSide::Right => MenuSide::Left,
        _ => side,
    }
}

/// Collision handling for a popup placed on a physical side: it stays where
/// it fits, else flips to the opposite side when that side has strictly more
/// room, else stays. `fits` and `opposite_roomier` are the host's
/// measurements against the available space minus the collision padding;
/// logical sides and unmeasured placements are left alone.
pub fn flip_for_collision(side: MenuSide, measured: bool, fits: bool, opposite_roomier: bool) -> (r: MenuSide)
    ensures
        r == (if !measured || fits || !opposite_roomier { side } else { opposite_side(side) }),
{
    if !measured || fits || !opposite_roomier {
        return side;
    }
    match side {
        MenuSide::Top => MenuSide::Bottom,
        MenuSide::Bottom => MenuSide::Top,
        MenuSide::Left => MenuSide::Right,
        MenuSide::Right => MenuSide::Left,
        _ => side,
    }
}

/// The side and alignment a popup takes when the positioner is given none:
/// submenus open beside their item, menubar menus below a horizontal bar
/// (beside a vertical one), context menus at the cursor, root menus centred
/// below their trigger. `menubar_horizontal` is the hosting bar's
/// orientation fact, when there is one.
pub fn default_placement(parent_kind: MenuParentKind, menubar_horizontal: Option<bool>) -> (r: (MenuSide, MenuAlign))
    ensures
        r == (match parent_kind {
            MenuParentKind::Submenu => (MenuSide::InlineEnd, MenuAlign::Start),
            MenuParentKind::Menubar => if menubar_horizontal == Some(false) {
                (MenuSide::InlineEnd, MenuAlign::Start)
            } else {
                (MenuSide::Bottom, MenuAlign::Start)
            },
            MenuParentKind::ContextMenu => (MenuSide::Bottom, MenuAlign::Start),
            MenuParentKind::NoParent => (MenuSide::Bottom, MenuAlign::Center),
        }),
{
    match parent_kind {
        MenuParentKind::Submenu => (MenuSide::InlineEnd, MenuAlign::Start),
        MenuParentKind::Menubar => match menubar_horizontal {
            Some(false) => (MenuSide::InlineEnd, MenuAlign::Start),
            _ => (MenuSide::Bottom, MenuAlign::Start),
        },
        MenuParentKind::ContextMenu => (MenuSide::Bottom, MenuAlign::Start),
        MenuParentKind::NoParent => (MenuSide::Bottom, MenuAlign::Center),
    }
}

/// Whether a context menu's default cursor offsets apply: only when no side
/// was given and the alignment is not centred.
pub fn context_menu_offsets_apply(parent_kind: MenuParentKind, side_given: bool, align: MenuAlign) -> (r: bool)
    ensures
        r == (parent_kind == MenuParentKind::ContextMenu && !side_given && align != MenuAlign::Center),
{
    parent_kind == MenuParentKind::ContextMenu && !side_given && align != MenuAlign::Center
}

/// Whether the open popup is modal (renders the dismissing backdrop): a
/// menubar menu when its bar is modal, a root menu when its props are modal
/// and it was not opened by hover, a context menu always, a submenu never.
pub fn positioner_modal(parent_kind: MenuParentKind, menubar_modal: bool, props_modal: bool, opened_by_hover: bool) -> (r: bool)
    ensures
        r == (match parent_kind {
            MenuParentKind::Menubar => menubar_modal,
            MenuParentKind::NoParent => props_modal && !opened_by_hover,
            MenuParentKind::ContextMenu => true,
            MenuParentKind::Submenu => false,
        }),
{
    match parent_kind {
        MenuParentKind::Menubar => menubar_modal,
        MenuParentKind::NoParent => props_modal && !opened_by_hover,
        MenuParentKind::ContextMenu => true,
        MenuParentKind::Submenu => false,
    }
}

/// Which region the modal backdrop leaves uncovered so it stays clickable.
#[derive(Clone, Copy, Debug, PartialEq, Eq, Structural)]
pub enum MenuBackdropCutout {
    /// Nothing: a context menu has no trigger button to keep clickable.
    NoCutout,
    /// The whole menubar row (falling back to the trigger when the row is
    /// not measured yet).
    MenubarRow,
    /// The menu's own trigger.
    Trigger,
}

/// The backdrop cutout for a menu hosted by `parent_kind`.
pub fn backdrop_cutout(parent_kind: MenuParentKind, in_menubar: bool) -> (r: MenuBackdropCutout)
    ensures
        r == (if parent_kind == MenuParentKind::ContextMenu {
            MenuBackdropCutout::NoCutout
        } else if in_menubar {
            MenuBackdropCutout::MenubarRow
        } else {
            MenuBackdropCutout::Trigger
        }),
{
    if parent_kind == MenuParentKind::ContextMenu {
        MenuBackdropCutout::NoCutout
    } else if in_menubar {
        MenuBackdropCutout::MenubarRow
    } else {
        MenuBackdropCutout::Trigger
    }
}

/// Whether focusing a menubar trigger opens its menu: only on the rising
/// focus edge of an enabled trigger whose menu is closed while a sibling
/// menu of the bar is open.
pub fn menubar_focus_opens(focus_gained: bool, open: bool, trigger_disabled: bool, menubar_has_submenu_open: bool) -> (r: bool)
    ensures
        r == (focus_gained && !open && !trigger_disabled && menubar_has_submenu_open),
{
    focus_gained && !open && !trigger_disabled && menubar_has_submenu_open
}

/// Whether a menu the menubar just opened highlights its first item: only
/// when the open went ahead and came from the keyboard.
pub fn handoff_highlights_first(opened: bool, source: MenuOpenChangeSource) -> (r: bool)
    ensures
        r == (opened && source == MenuOpenChangeSource::Keyboard),
{
    opened && source == MenuOpenChangeSource::Keyboard
}

/// What an accepted open-state change closes elsewhere in the tree before
/// it is committed.
#[derive(Clone, Copy, Debug, PartialEq, Eq, Structural)]
pub struct MenuOpenChangeCascade {
    /// Opening a menubar-hosted menu closes the bar's open sibling menu.
    pub close_menubar_sibling: bool,
    /// Opening a submenu closes the other open branches of its parent.
    pub close_parent_siblings: bool,
    /// Closing a menu closes all of its open descendant branches.
    pub close_descendants: bool,
}

/// The cascade of an accepted change to `next_open` for a menu that is or
/// is not hosted in a menubar and does or does not have a parent menu.
pub fn open_change_cascade(next_open: bool, in_menubar: bool, has_parent: bool) -> (r: MenuOpenChangeCascade)
    ensures
        r == (MenuOpenChangeCascade {
            close_menubar_sibling: next_open && in_menubar,
            close_parent_siblings: next_open && has_parent,
            close_descendants: !next_open,
        }),
{
    MenuOpenChangeCascade {
        close_menubar_sibling: next_open && in_menubar,
        close_parent_siblings: next_open && has_parent,
        close_descendants: !next_open,
    }
}

/// The open value an accessibility Expand (`expand`) or Collapse request on
/// the trigger asks for: none when the trigger is disabled or the menu is
/// already in the requested state.
pub fn trigger_a11y_request(expand: bool, disabled: bool, was_open: bool) -> (r: Option<bool>)
    ensures
        r == (if disabled || expand == was_open { None } else { Some(expand) }),
{
    if disabled || expand == was_open {
        None
    } else {
        Some(expand)
    }
}

/// What Space does in an open popup.
#[derive(Clone, Copy, Debug, PartialEq, Eq, Structural)]
pub enum MenuSpaceAction {
    /// A typeahead session is in progress: the space feeds the search.
    Typeahead,
    /// Otherwise Space activates the highlighted item.
    Activate,
}

pub fn space_action(typeahead_active: bool) -> (r: MenuSpaceAction)
    ensures
        r == (if typeahead_active { MenuSpaceAction::Typeahead } else { MenuSpaceAction::Activate }),
{
    if typeahead_active {
        MenuSpaceAction::Typeahead
    } else {
        MenuSpaceAction::Activate
    }
}

/// What a horizontal arrow in an open popup tries first.
#[derive(Clone, Copy, Debug, PartialEq, Eq, Structural)]
pub enum MenuArrowIntent {
    /// Open the highlighted submenu (the arrow pointing away from the parent).
    OpenSubmenu,
    /// Close this submenu (the arrow pointing back to the parent).
    CloseSubmenu,
}

/// The arrow pointing "forward" in the text direction opens the highlighted
/// branch; the other one closes this branch. Right is forward in
/// left-to-right text, Left in right-to-left text.
pub fn popup_arrow_intent(direction: TextDirection, key: HorizontalArrowKey) -> (r: MenuArrowIntent)
    ensures
        r == (if arrow_step(direction, key) == HorizontalDirection::Next {
            MenuArrowIntent::OpenSubmenu
        } else {
            MenuArrowIntent::CloseSubmenu
        }),
{
    match direction.horizontal_arrow(key) {
        HorizontalDirection::Next => MenuArrowIntent::OpenSubmenu,
        HorizontalDirection::Previous => MenuArrowIntent::CloseSubmenu,
    }
}

/// What releasing the right button over an item of a context-menu tree does.
#[derive(Clone, Copy, Debug, PartialEq, Eq, Structural)]
pub enum MenuDragRelease {
    /// A disabled item, or the release of the opening gesture itself.
    Ignore,
    /// Activate the item and, if it activated, close the whole tree (even
    /// for an item that does not close on click).
    ActivateThenCloseTree,
}

/// Decides a right-button release over an item; `near_initial_point` is the
/// host's consumed check that the release lies on the opening point.
pub fn drag_release(disabled: bool, near_initial_point: bool) -> (r: MenuDragRelease)
    ensures
        r == (if disabled || near_initial_point { MenuDragRelease::Ignore } else { MenuDragRelease::ActivateThenCloseTree }),
{
    if disabled || near_initial_point {
        MenuDragRelease::Ignore
    } else {
        MenuDragRelease::ActivateThenCloseTree
    }
}

/// Whether a menu is hosted in a vertical menubar, given the bar's
/// orientation fact when it is hosted in one.
pub fn vertical_menubar(menubar_horizontal: Option<bool>) -> (r: bool)
    ensures
        r == (menubar_horizontal == Some(false)),
{
    match menubar_horizontal {
        Some(horizontal) => !horizontal,
        None => false,
    }
}

/// The menubar relay direction of a physical horizontal arrow, flipping in
/// right-to-left text.
pub fn horizontal_menubar_move(direction: TextDirection, key: HorizontalArrowKey) -> (m: MenuMove)
    ensures
        m == (if arrow_step(direction, key) == HorizontalDirection::Next { MenuMove::Next } else { MenuMove::Previous }),
{
    match direction.horizontal_arrow(key) {
        HorizontalDirection::Next => MenuMove::Next,
        HorizontalDirection::Previous => MenuMove::Previous,
    }
}

/// The text a key press feeds to typeahead: none while Control, Alt, the
/// platform key or Function is held; otherwise the key's character text
/// (falling back to the key name) when it is exactly one non-control
/// character.
pub fn typeahead_text(control: bool, alt: bool, platform: bool, function: bool, key_char: Option<&str>, key: &str) -> (r: Option<String>)
    ensures
        ({
            let text = match key_char {
                Some(c) => c@,
                None => key@,
            };
            if control || alt || platform || function {
                r is None
            } else if text.len() == 1 && !is_control(text[0]) {
                r matches Some(s) && s@ == text
            } else {
                r is None
            }
        }),
{
    if control || alt || platform || function {
        return None;
    }
    let text = match key_char {
        Some(c) => c,
        None => key,
    };
    let chars = chars_of(text);
    if chars.len() == 1 && !char_is_control(chars[0]) {
        Some(text.to_owned())
    } else {
        None
    }
}

} // verus!
