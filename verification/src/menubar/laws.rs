//! Properties of the menubar runtime that span several operations.
use vstd::prelude::*;

use crate::direction::TextDirection;
use crate::menu::kinds::MenuOpenChangeReason;
use crate::menubar::props::MenubarOrientation;
use crate::menubar::runtime::{
    key_move, synced_slots, MenubarKey, MenubarMove, MenubarRuntimeView, MenubarTriggerSlotView,
};

verus! {

/// After reconciling, the roving tab stop is on a trigger whenever there is
/// one (and nowhere otherwise), and any recorded open menu exists.
pub proof fn law_reconcile_establishes_valid_tab_stop<F, C>(r: MenubarRuntimeView<F, C>)
    ensures
        ({
            let s = r.after_reconcile();
            &&& r.triggers.len() > 0 <==> (s.highlighted_index matches Some(h) && h < s.triggers.len())
            &&& r.triggers.len() == 0 ==> s.highlighted_index is None
            &&& s.open_menu_index matches Some(o) ==> o < s.triggers.len()
            &&& s.open_menu_index is None && r.open_menu_index is Some ==> !s.has_submenu_open
        }),
{
}

/// Reconciling twice is the same as reconciling once.
pub proof fn law_reconcile_is_idempotent<F, C>(r: MenubarRuntimeView<F, C>)
    ensures
        r.after_reconcile().after_reconcile() == r.after_reconcile(),
{
}

/// Re-wiring keeps, at every index present before and after, the focus
/// handle and typed commands registered there, and takes the disabled fact
/// from the fresh wiring.
pub proof fn law_sync_keeps_registrations<F, C>(fresh: Seq<MenubarTriggerSlotView<F, C>>, previous: Seq<MenubarTriggerSlotView<F, C>>, i: int)
    requires
        0 <= i < fresh.len(),
        i < previous.len(),
    ensures
        synced_slots(fresh, previous)[i].open == previous[i].open,
        synced_slots(fresh, previous)[i].close == previous[i].close,
        synced_slots(fresh, previous)[i].focus_handle == previous[i].focus_handle,
        synced_slots(fresh, previous)[i].disabled == fresh[i].disabled,
        synced_slots(fresh, previous).len() == fresh.len(),
{
}

/// Opening a hosted menu records it as the open one, sets
/// `has_submenu_open`, and moves the roving highlight onto it.
pub proof fn law_open_records_menu_and_highlight<F, C>(r: MenubarRuntimeView<F, C>, index: usize, reason: MenuOpenChangeReason)
    requires
        index < r.triggers.len(),
    ensures
        r.after_child_open_change(index, true, reason).has_submenu_open,
        r.after_child_open_change(index, true, reason).open_menu_index == Some(index),
        r.after_child_open_change(index, true, reason).highlighted_index == Some(index),
{
}

/// `has_submenu_open` survives handoff closes and is cleared by every other
/// close of the open menu.
pub proof fn law_handoff_retains_open_flag<F, C>(r: MenubarRuntimeView<F, C>, index: usize, reason: MenuOpenChangeReason)
    ensures
        ({
            let s = r.after_child_open_change(index, true, MenuOpenChangeReason::TriggerPress)
                .after_child_open_change(index, false, reason);
            &&& s.open_menu_index is None
            &&& s.has_submenu_open == (reason == MenuOpenChangeReason::SiblingOpen || reason
                == MenuOpenChangeReason::ListNavigation)
        }),
{
}

/// A late close from a menu that is no longer the open one keeps the open
/// menu's identity.
pub proof fn law_stale_close_keeps_open_menu<F, C>(r: MenubarRuntimeView<F, C>, first: usize, second: usize)
    requires
        first != second,
    ensures
        ({
            let s = r.after_child_open_change(first, true, MenuOpenChangeReason::TriggerPress)
                .after_child_open_change(second, true, MenuOpenChangeReason::TriggerHover)
                .after_child_open_change(first, false, MenuOpenChangeReason::SiblingOpen);
            s.open_menu_index == Some(second) && s.has_submenu_open
        }),
{
}

/// Setting the highlight outside the triggers changes nothing.
pub proof fn law_out_of_range_highlight_ignored<F, C>(r: MenubarRuntimeView<F, C>, index: usize)
    requires
        index >= r.triggers.len(),
    ensures
        r.after_set_highlight(index) == r,
{
}

/// Reconciling keeps the roving tab stop where it is while it is on a
/// trigger: only a missing or out-of-range highlight is moved (to the first
/// trigger). Re-rendering therefore never throws the tab stop back.
pub proof fn law_reconcile_keeps_a_valid_highlight<F, C>(r: MenubarRuntimeView<F, C>, h: usize)
    requires
        r.highlighted_index == Some(h),
        h < r.triggers.len(),
    ensures
        r.after_reconcile().highlighted_index == Some(h),
        r.after_reconcile().triggers == r.triggers,
{
}

/// Reconciling after a highlight move keeps the moved highlight: the tab
/// stop moved by a key survives the next render's reconcile.
pub proof fn law_moved_highlight_survives_reconcile<F, C>(r: MenubarRuntimeView<F, C>, direction: MenubarMove, loop_focus: bool)
    requires
        r.triggers.len() > 0,
        r.triggers.len() <= usize::MAX,
        r.highlighted_index matches Some(h) ==> h < r.triggers.len(),
    ensures
        r.after_move_highlight(direction, loop_focus).after_reconcile().highlighted_index
            == r.after_move_highlight(direction, loop_focus).highlighted_index,
        r.after_move_highlight(direction, loop_focus).highlighted_index is Some,
{
    crate::menu::laws::law_move_highlight_stays_on_items(
        r.triggers.len(),
        r.highlighted_index,
        crate::menubar::runtime::as_menu_move(direction),
        loop_focus,
    );
}

/// On a horizontal menubar the Left and Right arrows move in opposite
/// directions, and which one moves forward follows the text direction: Right
/// in left-to-right text, Left in right-to-left text. Up and Down do nothing
/// there.
pub proof fn law_horizontal_arrows_follow_text_direction(direction: TextDirection)
    ensures
        key_move(MenubarOrientation::Horizontal, direction, MenubarKey::Right) == Some(
            if direction == TextDirection::Ltr { MenubarMove::Next } else { MenubarMove::Previous },
        ),
        key_move(MenubarOrientation::Horizontal, direction, MenubarKey::Left) == Some(
            if direction == TextDirection::Rtl { MenubarMove::Next } else { MenubarMove::Previous },
        ),
        key_move(MenubarOrientation::Horizontal, direction, MenubarKey::Left) != key_move(
            MenubarOrientation::Horizontal,
            direction,
            MenubarKey::Right,
        ),
        key_move(MenubarOrientation::Horizontal, direction, MenubarKey::Up) is None,
        key_move(MenubarOrientation::Horizontal, direction, MenubarKey::Down) is None,
{
}

/// On a vertical menubar Up and Down move back and forward whatever the
/// text direction, and Left and Right do nothing; Home and End jump to the
/// ends on either orientation.
pub proof fn law_vertical_arrows_and_ends(direction: TextDirection, orientation: MenubarOrientation)
    ensures
        key_move(MenubarOrientation::Vertical, direction, MenubarKey::Up) == Some(MenubarMove::Previous),
        key_move(MenubarOrientation::Vertical, direction, MenubarKey::Down) == Some(MenubarMove::Next),
        key_move(MenubarOrientation::Vertical, direction, MenubarKey::Left) is None,
        key_move(MenubarOrientation::Vertical, direction, MenubarKey::Right) is None,
        key_move(orientation, direction, MenubarKey::Home) == Some(MenubarMove::First),
        key_move(orientation, direction, MenubarKey::End) == Some(MenubarMove::Last),
{
}

} // verus!
