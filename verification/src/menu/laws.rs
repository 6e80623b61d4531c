//! Properties of the menu runtime that span several operations.
use vstd::prelude::*;

use crate::menu::kinds::{
    elapsed, MenuHoverTarget, MenuMove, MenuParentKind, MenuTypeaheadOutcome, TYPEAHEAD_RESET_AFTER,
};
use crate::menu::runtime::{
    label_matches, moved_highlight, scan_position, typeahead_scan, typeahead_search, typeahead_target,
    MenuRuntimeView,
};
use crate::menu::text::{trim_start, unicode_lowercase};
use crate::menu::details::MenuItemMetadata;
use crate::menu::wiring::{
    indices_dense, item_step_count, wiring_replay, wiring_replay_allowed, wiring_step, MenuChildWiringView,
    MenuWiringStep,
};

verus! {

/// A highlight that starts on an item (or nowhere) stays on an item after
/// any move over a non-empty item list.
pub proof fn law_move_highlight_stays_on_items(len: nat, current: Option<usize>, direction: MenuMove, loop_focus: bool)
    requires
        len > 0,
        len <= usize::MAX,
        current matches Some(c) ==> c < len,
    ensures
        moved_highlight(len, current, direction, loop_focus) matches Some(h) && h < len,
{
}

/// With wrapping, moving to the next item and back to the previous one
/// returns to where the highlight started, and so does the reverse.
pub proof fn law_next_and_previous_undo_each_other(len: nat, c: usize)
    requires
        len <= usize::MAX,
        c < len,
    ensures
        moved_highlight(len, moved_highlight(len, Some(c), MenuMove::Next, true), MenuMove::Previous, true)
            == Some(c),
        moved_highlight(len, moved_highlight(len, Some(c), MenuMove::Previous, true), MenuMove::Next, true)
            == Some(c),
{
}

/// Without wrapping, the highlight clamps at both ends.
pub proof fn law_move_highlight_clamps_without_loop(len: nat)
    requires
        0 < len <= usize::MAX,
    ensures
        moved_highlight(len, Some((len - 1) as usize), MenuMove::Next, false) == Some((len - 1) as usize),
        moved_highlight(len, Some(0usize), MenuMove::Previous, false) == Some(0usize),
{
}

/// The press-open marker suppresses exactly one click: a second take after
/// the first one reports nothing.
pub proof fn law_press_marker_taken_once<P, I, L>(r: MenuRuntimeView<P, I, L>)
    ensures
        !r.after_take_opened_by_current_press().0.after_take_opened_by_current_press().1,
{
}

/// A scheduled hover timer fires once: its first take succeeds and a second
/// take of the same generation fails.
pub proof fn law_scheduled_hover_taken_once<P, I, L>(r: MenuRuntimeView<P, I, L>, target: MenuHoverTarget)
    ensures
        ({
            let (s1, generation) = r.after_schedule_hover(target);
            let (s2, first) = s1.after_take_scheduled_hover(generation, target);
            let (_, second) = s2.after_take_scheduled_hover(generation, target);
            first && !second
        }),
{
}

/// Canceling invalidates a scheduled hover timer.
pub proof fn law_canceled_hover_not_taken<P, I, L>(r: MenuRuntimeView<P, I, L>, target: MenuHoverTarget, later_target: MenuHoverTarget)
    ensures
        ({
            let (s1, generation) = r.after_schedule_hover(target);
            !s1.after_cancel_hover().after_take_scheduled_hover(generation, later_target).1
        }),
{
}

/// A newer hover schedule supersedes an older one: the older generation is
/// no longer taken (generations differ unless the counter wrapped all the
/// way around).
pub proof fn law_newer_hover_supersedes<P, I, L>(r: MenuRuntimeView<P, I, L>, first: MenuHoverTarget, second: MenuHoverTarget)
    ensures
        ({
            let (s1, g1) = r.after_schedule_hover(first);
            let (s2, _) = s1.after_schedule_hover(second);
            !s2.after_take_scheduled_hover(g1, first).1
        }),
{
}

/// A scheduled child close fires once; a cancel in between invalidates it.
pub proof fn law_scheduled_child_close_taken_once<P, I, L>(r: MenuRuntimeView<P, I, L>, item: usize)
    ensures
        ({
            let (s1, generation) = r.after_schedule_child_close(item);
            let (s2, first) = s1.after_take_scheduled_child_close(generation, item);
            let (_, second) = s2.after_take_scheduled_child_close(generation, item);
            first && !second && !s1.after_cancel_child_close().after_take_scheduled_child_close(generation, item).1
        }),
{
}

/// A checkbox default is registered once: later registrations do not
/// override it, and a committed value is what is read back.
pub proof fn law_checkbox_default_once_and_commit_read_back<P, I, L>(r: MenuRuntimeView<P, I, L>, index: usize, first: bool, second: bool, committed: bool)
    ensures
        !r.checkbox_checked.contains_key(index) ==> r.after_register_checkbox_default(index, first)
            .after_register_checkbox_default(index, second).checkbox_value(index) == first,
        r.after_commit_checkbox(index, committed).checkbox_value(index) == committed,
        r.after_commit_checkbox(index, committed).after_register_checkbox_default(index, first).checkbox_value(index)
            == committed,
{
}

/// A radio default is registered once, and a committed selection is what is
/// read back (committing the same selection twice changes nothing).
pub proof fn law_radio_default_once_and_commit_read_back<P, I, L>(r: MenuRuntimeView<P, I, L>, group: usize, first: Option<usize>, second: Option<usize>, item: usize)
    ensures
        !r.radio_selected.contains_key(group) ==> r.after_register_radio_default(group, first)
            .after_register_radio_default(group, second).radio_value(group) == first,
        r.after_commit_radio(group, item).radio_value(group) == Some(item),
        r.after_commit_radio(group, item).after_commit_radio(group, item) == r.after_commit_radio(group, item),
{
    assert(r.radio_selected.insert(group, Some(item)).insert(group, Some(item)) =~= r.radio_selected.insert(group, Some(item)));
}

/// Redundant open-change requests change nothing, unless the request is a
/// close of a popup that is only still mounted.
pub proof fn law_redundant_request_changes_nothing<P, I, L>(r: MenuRuntimeView<P, I, L>, value: bool)
    ensures
        r.open_change_accepted(value, value) == (!value && r.prevent_unmount_on_close),
{
}

/// A genuine change is accepted unless a disabled trigger blocks opening.
pub proof fn law_genuine_request_accepted<P, I, L>(r: MenuRuntimeView<P, I, L>, current: bool)
    ensures
        r.open_change_accepted(current, !current) == !(!current && r.trigger_blocks_open()),
{
}

/// Closing clears the transient interaction state: no highlight, no open
/// branch, no pending child close, no typeahead session at any time.
pub proof fn law_close_clears_transient_state<P, I, L>(r: MenuRuntimeView<P, I, L>, prevent_unmount: bool, commit: bool, now: u64)
    ensures
        ({
            let s = r.after_commit_open(false, prevent_unmount, commit);
            &&& s.highlighted_index is None
            &&& s.open_submenu_item is None
            &&& s.pending_child_close is None
            &&& s.child_polygon_item is None
            &&& !s.typeahead_in_progress(now)
            &&& s.mounted(false) == (s.open || prevent_unmount)
        }),
{
}

/// Opening commits always mount the popup and clear a pending
/// keep-mounted request.
pub proof fn law_open_commit_mounts<P, I, L>(r: MenuRuntimeView<P, I, L>, keep_mounted: bool)
    ensures
        r.after_commit_open(true, false, true).open,
        r.after_commit_open(true, false, true).mounted(keep_mounted),
        !r.after_commit_open(true, false, true).prevent_unmount_on_close,
{
}

/// The trigger's focus edge fires once per focus gain.
pub proof fn law_focus_edge_rises_once<P, I, L>(r: MenuRuntimeView<P, I, L>)
    ensures
        !r.after_trigger_focus_edge(true).0.after_trigger_focus_edge(true).1,
        r.after_trigger_focus_edge(false).0.after_trigger_focus_edge(true).1,
{
}

/// A focus-out close request is reported once.
pub proof fn law_focus_out_request_taken_once<P, I, L>(r: MenuRuntimeView<P, I, L>)
    ensures
        !r.after_take_focus_out_close_request().0.after_take_focus_out_close_request().1,
        (r.open && r.was_focused) ==> r.after_sync_focus(false).after_take_focus_out_close_request().1,
{
}

/// Opening and then closing the same child branch leaves no open branch and
/// re-enables hover-driven closing.
pub proof fn law_branch_open_close_restores_hover<P, I, L>(r: MenuRuntimeView<P, I, L>, item: usize)
    ensures
        r.after_note_submenu_opened(item).after_note_submenu_closed(item).open_submenu_item is None,
        r.after_note_submenu_opened(item).after_note_submenu_closed(item).hover_enabled,
{
}

/// The typeahead session lapses after `TYPEAHEAD_RESET_AFTER` of idleness.
pub proof fn law_typeahead_lapses<P, I, L>(r: MenuRuntimeView<P, I, L>, last: u64, now: u64)
    requires
        r.last_typeahead_at == Some(last),
        elapsed(now, last) > TYPEAHEAD_RESET_AFTER,
    ensures
        !r.typeahead_in_progress(now),
{
}

proof fn lemma_scan_lands_on_enabled_match(items: Seq<crate::menu::details::MenuItemView>, current: Option<usize>, key: Seq<char>, offset: nat)
    requires
        items.len() > 0,
    ensures
        typeahead_scan(items, current, key, offset) matches Some(p) ==> 0 <= p < items.len()
            && !items[p].disabled && label_matches(items[p].label, key),
    decreases items.len() + 1 - offset,
{
    if offset == 0 || offset > items.len() {
    } else {
        let p = scan_position(items.len(), current, offset);
        if !items[p].disabled && label_matches(items[p].label, key) {
            match current {
                Some(c) => {
                    vstd::arithmetic::div_mod::lemma_mod_bound((c + offset) as int, items.len() as int);
                },
                None => {},
            }
        } else {
            lemma_scan_lands_on_enabled_match(items, current, key, offset + 1);
        }
    }
}

/// Typeahead only ever lands on an enabled item whose lower-cased label
/// starts with the lower-cased search text, and on no match the highlight is
/// left where it was.
pub proof fn law_typeahead_lands_on_enabled_match<P, I, L>(r: MenuRuntimeView<P, I, L>, text: Seq<char>, now: u64)
    requires
        r.items.len() <= usize::MAX,
    ensures
        ({
            let (s, outcome) = r.after_typeahead(text, now);
            &&& outcome == MenuTypeaheadOutcome::Moved ==> (s.highlighted_index matches Some(h) && h < r.items.len()
                && !r.items[h as int].disabled && label_matches(
                r.items[h as int].label,
                unicode_lowercase(trim_start(typeahead_search(r.typeahead_buffer(now), crate::menu::runtime::typeahead_key(text)))),
            ))
            &&& outcome == MenuTypeaheadOutcome::NoMatch ==> s.highlighted_index == r.highlighted_index
            &&& s.items == r.items
        }),
{
    reveal(typeahead_target);
    let key = crate::menu::runtime::typeahead_key(text);
    if key.len() > 0 {
        let buffer = r.typeahead_buffer(now);
        let search = typeahead_search(buffer, key);
        let lkey = unicode_lowercase(trim_start(search));
        if lkey.len() > 0 && r.items.len() > 0 {
            lemma_scan_lands_on_enabled_match(r.items, r.highlighted_index, lkey, 1);
            match typeahead_scan(r.items, r.highlighted_index, lkey, 1) {
                Some(p) => {
                    assert(typeahead_target(r.items, r.highlighted_index, search) == Some(p));
                    assert(0 <= p < r.items.len());
                    let (s, outcome) = r.after_typeahead(text, now);
                    assert(outcome == MenuTypeaheadOutcome::Moved);
                    assert(s.highlighted_index == Some(p as usize));
                    assert(s.items == r.items);
                },
                None => {
                    assert(typeahead_target(r.items, r.highlighted_index, search) is None);
                },
            }
        } else {
            assert(typeahead_target(r.items, r.highlighted_index, search) is None);
        }
    }
}

/// Items registered under the index the wiring hands out keep the item
/// indices dense: each item's index is its position in source order, no
/// matter how many groups, labels or separators sit between them.
pub proof fn law_wiring_keeps_item_indices_dense<T, F>(w: MenuChildWiringView<T, F>, item: MenuItemMetadata)
    requires
        indices_dense(w),
        item@.index == w.next_item_index,
        item@.index < usize::MAX,
    ensures
        indices_dense(w.after_register_item(item)),
{
    let next = w.after_register_item(item);
    assert forall|k: int| 0 <= k < next.items.len() implies (#[trigger] next.items[k])@.index == k by {
        if k < w.items.len() {
            assert(next.items[k] == w.items[k]);
        }
    }
}

/// Typing never activates, opens or closes anything: feeding text to
/// typeahead changes at most the highlight and the typeahead buffer and its
/// timestamp.
pub proof fn law_typeahead_only_moves_the_highlight<P, I, L>(r: MenuRuntimeView<P, I, L>, text: Seq<char>, now: u64)
    ensures
        ({
            let (s, _) = r.after_typeahead(text, now);
            s == (MenuRuntimeView {
                highlighted_index: s.highlighted_index,
                typeahead: s.typeahead,
                last_typeahead_at: s.last_typeahead_at,
                ..r
            })
        }),
{
}

/// Over any sequence of registrations (items, group labels, the trigger,
/// radio groups, checkbox and radio defaults) in which every item is built
/// with the index the wiring hands out at its turn, the item indices stay
/// dense: the items registered before keep their places, each new item's
/// index is its position, and only items consume an index.
pub proof fn law_wiring_registrations_keep_indices_dense<T, F>(w: MenuChildWiringView<T, F>, steps: Seq<MenuWiringStep<T, F>>)
    requires
        indices_dense(w),
        wiring_replay_allowed(w, steps),
    ensures
        indices_dense(wiring_replay(w, steps)),
        wiring_replay(w, steps).items.len() == w.items.len() + item_step_count(steps),
        wiring_replay(w, steps).items.take(w.items.len() as int) == w.items,
    decreases steps.len(),
{
    if steps.len() > 0 {
        let next = wiring_step(w, steps[0]);
        match steps[0] {
            MenuWiringStep::Item(item, _) => {
                law_wiring_keeps_item_indices_dense(w, item);
            },
            _ => {},
        }
        assert(indices_dense(next));
        law_wiring_registrations_keep_indices_dense(next, steps.drop_first());
        let r = wiring_replay(next, steps.drop_first());
        assert(r == wiring_replay(w, steps));
        assert(next.items.take(w.items.len() as int) =~= w.items);
        assert(r.items.take(w.items.len() as int) =~= w.items) by {
            assert forall|k: int| 0 <= k < w.items.len() implies r.items[k] == w.items[k] by {
                assert(r.items.take(next.items.len() as int)[k] == next.items[k]);
            }
        }
    }
}

/// From a fresh wiring, the k-th item registered (counting from 0) has
/// index k, and the next index handed out is the number of items, however
/// labels, the trigger, radio groups and defaults are interleaved.
pub proof fn law_wiring_from_new_numbers_items_in_order<T, F>(steps: Seq<MenuWiringStep<T, F>>)
    requires
        wiring_replay_allowed(MenuChildWiringView::<T, F>::initial(), steps),
    ensures
        wiring_replay(MenuChildWiringView::<T, F>::initial(), steps).items.len() == item_step_count(steps),
        wiring_replay(MenuChildWiringView::<T, F>::initial(), steps).next_item_index == item_step_count(steps),
        forall|k: int|
            0 <= k < item_step_count(steps) ==> (#[trigger] wiring_replay(MenuChildWiringView::<T, F>::initial(), steps).items[k])@.index
                == k,
{
    law_wiring_registrations_keep_indices_dense(MenuChildWiringView::<T, F>::initial(), steps);
}

/// A disabled trigger blocks opening a root menu and a menubar-hosted menu:
/// a request to open is refused and reports the menu closed, whatever the
/// current value.
pub proof fn law_disabled_trigger_blocks_opening<P, I, L>(r: MenuRuntimeView<P, I, L>, current: bool)
    requires
        r.trigger matches Some(t) && t.disabled,
        r.parent_kind == MenuParentKind::NoParent || r.parent_kind == MenuParentKind::Menubar,
    ensures
        !r.open_change_accepted(current, true),
{
}

/// A submenu (or a context menu) opens from a disabled trigger's request all
/// the same when it is a genuine change: the trigger only blocks root and
/// menubar menus.
pub proof fn law_disabled_trigger_does_not_block_nested_menus<P, I, L>(r: MenuRuntimeView<P, I, L>)
    requires
        r.parent_kind == MenuParentKind::Submenu || r.parent_kind == MenuParentKind::ContextMenu,
    ensures
        r.open_change_accepted(false, true),
{
}

/// Only the close of the recorded open branch forgets it: a late close of
/// any other branch leaves the open branch and hover-driven closing as they
/// were, while closing the open branch forgets it and re-enables hover.
pub proof fn law_only_the_open_branch_close_forgets_it<P, I, L>(r: MenuRuntimeView<P, I, L>, open: usize, closed: usize)
    ensures
        r.open_submenu_item == Some(open) && open != closed ==> {
            &&& r.after_note_submenu_closed(closed).open_submenu_item == Some(open)
            &&& r.after_note_submenu_closed(closed).hover_enabled == r.hover_enabled
        },
        r.open_submenu_item == Some(closed) ==> {
            &&& r.after_note_submenu_closed(closed).open_submenu_item is None
            &&& r.after_note_submenu_closed(closed).hover_enabled
        },
        r.open_submenu_item is None ==> r.after_note_submenu_closed(closed).open_submenu_item is None
            && r.after_note_submenu_closed(closed).hover_enabled == r.hover_enabled,
{
}

/// Opening a second branch then receiving the first branch's sibling close
/// leaves the second branch recorded open with hover-closing disabled.
pub proof fn law_sibling_close_after_handoff_keeps_new_branch<P, I, L>(r: MenuRuntimeView<P, I, L>, first: usize, second: usize)
    requires
        first != second,
    ensures
        r.after_note_submenu_opened(first).after_note_submenu_opened(second).after_note_submenu_closed(first).open_submenu_item
            == Some(second),
        !r.after_note_submenu_opened(first).after_note_submenu_opened(second).after_note_submenu_closed(first).hover_enabled,
{
}

} // verus!
