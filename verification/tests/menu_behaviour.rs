use base_gpui::direction::{HorizontalArrowKey, HorizontalDirection, TextDirection};
use base_gpui::menu::decisions::{
    backdrop_cutout, context_menu_offsets_apply, default_placement, handoff_highlights_first,
    menubar_focus_opens, open_change_cascade, positioner_modal, MenuOpenChangeCascade,
    drag_release, popup_arrow_intent, space_action, trigger_a11y_request, MenuArrowIntent,
    MenuDragRelease, MenuSpaceAction,
    MenuBackdropCutout,
    closes_own_submenu, flip_for_collision, highlighted_item_action, highlighted_submenu_to_open,
    horizontal_menubar_move, item_activation_outcome, open_change_allowed,
    resolve_logical_side, returns_focus_on_close, submenu_hover_open, submenu_trigger_press,
    trigger_click_may_close, trigger_hover, trigger_press, trigger_tab_stop, typeahead_text,
    vertical_menubar, MenuHighlightedAction, MenuSubmenuHoverOpen, MenuTriggerHover,
    MenuTriggerPress,
};
use base_gpui::menu::kinds::{bump_generation, elapsed_between};
use base_gpui::menu::runtime::{instant_kind_for, next_highlight, typeahead_key_chars};
use base_gpui::menu::text::{
    chars_of, is_prefix_chars, leading_white_space_len, lowercase_chars, repeats_one_char_chars,
    slice_chars, string_of, trailing_white_space_len, trim_chars, trim_start_chars,
};
use base_gpui::menu::{
    MenuAlign, MenuChildHoverDirective, MenuChildWiring, MenuContextMenuMouseUp,
    MenuHoverTarget, MenuInstantKind, MenuItemChangeDetails, MenuItemKind, MenuItemMetadata,
    MenuMove, MenuOpenChangeDetails, MenuOpenChangeReason, MenuOpenChangeSource,
    MenuParentKind, MenuPolygonDirective, MenuPolygonVerdict, MenuProps, MenuRuntime, MenuSide,
    MenuSubmenuLink, MenuTriggerMetadata, MenuTypeaheadOutcome, CONTEXT_MENU_GRACE,
    POLYGON_CLOSE_DELAY, TYPEAHEAD_RESET_AFTER,
};
use base_gpui::menu::MenuOrientation;

type Runtime = MenuRuntime<u32, String, &'static str>;

const SECOND: u64 = 1_000_000_000;

fn labelled(index: usize, label: &str, disabled: bool) -> MenuItemMetadata {
    MenuItemMetadata::new(index, MenuItemKind::Item, Some(label.to_string()), disabled, true)
}

fn runtime_with(labels: &[&str]) -> Runtime {
    let mut runtime: Runtime = MenuRuntime::new(true, MenuParentKind::NoParent);
    runtime.sync_items(
        labels
            .iter()
            .enumerate()
            .map(|(index, label)| labelled(index, label, false))
            .collect(),
    );
    runtime
}

fn highlighted(runtime: &Runtime) -> Option<usize> {
    runtime.highlighted_index()
}

#[test]
fn next_highlight_covers_every_direction() {
    assert_eq!(next_highlight(0, None, MenuMove::Next, true), None);
    assert_eq!(next_highlight(3, None, MenuMove::Next, false), Some(0));
    assert_eq!(next_highlight(3, None, MenuMove::Previous, false), Some(2));
    assert_eq!(next_highlight(3, Some(1), MenuMove::Next, false), Some(2));
    assert_eq!(next_highlight(3, Some(2), MenuMove::Next, false), Some(2));
    assert_eq!(next_highlight(3, Some(2), MenuMove::Next, true), Some(0));
    assert_eq!(next_highlight(3, Some(0), MenuMove::Previous, true), Some(2));
    assert_eq!(next_highlight(3, Some(0), MenuMove::Previous, false), Some(0));
    assert_eq!(next_highlight(3, Some(1), MenuMove::First, true), Some(0));
    assert_eq!(next_highlight(3, Some(1), MenuMove::Last, true), Some(2));
}

#[test]
fn next_then_previous_returns_to_the_start_when_wrapping() {
    for len in 1..5usize {
        for start in 0..len {
            let forward = next_highlight(len, Some(start), MenuMove::Next, true);
            assert_eq!(next_highlight(len, forward, MenuMove::Previous, true), Some(start));
            let back = next_highlight(len, Some(start), MenuMove::Previous, true);
            assert_eq!(next_highlight(len, back, MenuMove::Next, true), Some(start));
        }
    }
}

#[test]
fn generation_counter_wraps_and_elapsed_saturates() {
    assert_eq!(bump_generation(7), 8);
    assert_eq!(bump_generation(u64::MAX), 0);
    assert_eq!(elapsed_between(10, 4), 6);
    assert_eq!(elapsed_between(4, 10), 0);
}

#[test]
fn instant_kinds_of_menubar_menus_group_focus_transitions() {
    assert_eq!(
        instant_kind_for(
            MenuParentKind::Menubar,
            MenuOpenChangeReason::TriggerHover,
            MenuOpenChangeSource::Pointer
        ),
        MenuInstantKind::Group
    );
    assert_eq!(
        instant_kind_for(
            MenuParentKind::NoParent,
            MenuOpenChangeReason::ItemPress,
            MenuOpenChangeSource::Keyboard
        ),
        MenuInstantKind::Click
    );
    assert_eq!(
        instant_kind_for(
            MenuParentKind::NoParent,
            MenuOpenChangeReason::OutsidePress,
            MenuOpenChangeSource::Pointer
        ),
        MenuInstantKind::Dismiss
    );
    assert_eq!(
        instant_kind_for(
            MenuParentKind::NoParent,
            MenuOpenChangeReason::TriggerPress,
            MenuOpenChangeSource::Pointer
        ),
        MenuInstantKind::NotInstant
    );
}

#[test]
fn text_helpers_trim_slice_and_compare() {
    let padded = chars_of("  Apple pie \t");
    assert_eq!(leading_white_space_len(&padded), 2);
    assert_eq!(trailing_white_space_len(&padded), 2);
    assert_eq!(string_of(&trim_chars(&padded)), "Apple pie");
    assert_eq!(string_of(&trim_start_chars(&padded)), "Apple pie \t");
    assert_eq!(string_of(&slice_chars(&padded, 2, 7)), "Apple");
    assert!(is_prefix_chars(&chars_of("App"), &chars_of("Apple")));
    assert!(!is_prefix_chars(&chars_of("Apple"), &chars_of("App")));
    assert!(repeats_one_char_chars(&chars_of("aaa")));
    assert!(!repeats_one_char_chars(&chars_of("ab")));
    assert!(!repeats_one_char_chars(&chars_of("")));
    let blank = chars_of("   ");
    assert_eq!(trim_chars(&blank).len(), 0);
}

#[test]
fn lowercase_follows_unicode_case_mapping() {
    assert_eq!(string_of(&lowercase_chars(&chars_of("ÀPPLE Ω"))), "àpple ω");
    assert_eq!(string_of(&lowercase_chars(&chars_of("İ"))), "i\u{307}");
}

#[test]
fn typeahead_key_keeps_a_lone_space_and_trims_other_text() {
    assert_eq!(string_of(&typeahead_key_chars(" ")), " ");
    assert_eq!(string_of(&typeahead_key_chars(" a ")), "a");
    assert_eq!(typeahead_key_chars("  ").len(), 0);
}

#[test]
fn typeahead_matches_case_insensitively_and_accumulates_a_prefix() {
    let mut runtime = runtime_with(&["APPLE", "Apricot", "Banana"]);
    let now = 20 * SECOND;
    assert_eq!(runtime.apply_typeahead("a", now), MenuTypeaheadOutcome::Moved);
    assert_eq!(highlighted(&runtime), Some(0));
    assert!(runtime.typeahead_active(now));
    assert_eq!(runtime.apply_typeahead("p", now + 1), MenuTypeaheadOutcome::Moved);
    assert_eq!(highlighted(&runtime), Some(1));
    assert_eq!(runtime.apply_typeahead("r", now + 2), MenuTypeaheadOutcome::Moved);
    assert_eq!(highlighted(&runtime), Some(1));
    assert_eq!(runtime.apply_typeahead("x", now + 3), MenuTypeaheadOutcome::NoMatch);
    assert_eq!(highlighted(&runtime), Some(1));
}

#[test]
fn typeahead_repeated_letter_cycles_through_matches() {
    let mut runtime = runtime_with(&["Apple", "Apricot", "Banana", "Avocado"]);
    let now = 30 * SECOND;
    runtime.apply_typeahead("a", now);
    assert_eq!(highlighted(&runtime), Some(0));
    runtime.apply_typeahead("a", now + 1);
    assert_eq!(highlighted(&runtime), Some(1));
    runtime.apply_typeahead("a", now + 2);
    assert_eq!(highlighted(&runtime), Some(3));
    runtime.apply_typeahead("a", now + 3);
    assert_eq!(highlighted(&runtime), Some(0));
}

#[test]
fn typeahead_window_lapses_strictly_after_the_reset_delay() {
    let mut runtime = runtime_with(&["Alpha", "Beta"]);
    let start = 40 * SECOND;
    runtime.apply_typeahead("a", start);
    assert!(runtime.typeahead_active(start + TYPEAHEAD_RESET_AFTER));
    assert!(!runtime.typeahead_active(start + TYPEAHEAD_RESET_AFTER + 1));
    runtime.reset_typeahead();
    assert!(!runtime.typeahead_active(start));
}

#[test]
fn typeahead_with_blank_text_changes_nothing() {
    let mut runtime = runtime_with(&["Alpha"]);
    assert_eq!(runtime.apply_typeahead("   ", SECOND), MenuTypeaheadOutcome::NoMatch);
    assert_eq!(highlighted(&runtime), None);
}

#[test]
fn typeahead_text_filters_modifiers_and_control_characters() {
    assert_eq!(typeahead_text(false, false, false, false, Some("a"), "a"), Some("a".to_string()));
    assert_eq!(typeahead_text(false, false, false, false, None, "b"), Some("b".to_string()));
    assert_eq!(typeahead_text(true, false, false, false, Some("a"), "a"), None);
    assert_eq!(typeahead_text(false, true, false, false, Some("a"), "a"), None);
    assert_eq!(typeahead_text(false, false, true, false, Some("a"), "a"), None);
    assert_eq!(typeahead_text(false, false, false, true, Some("a"), "a"), None);
    assert_eq!(typeahead_text(false, false, false, false, None, "enter"), None);
    assert_eq!(typeahead_text(false, false, false, false, Some("\u{8}"), "backspace"), None);
    assert_eq!(typeahead_text(false, false, false, false, Some("é"), "e"), Some("é".to_string()));
}

#[test]
fn context_menu_mouse_up_classification() {
    let mut runtime: Runtime = MenuRuntime::new(true, MenuParentKind::ContextMenu);
    let now = 50 * SECOND;
    assert_eq!(
        runtime.context_menu_mouse_up(false, false, now),
        MenuContextMenuMouseUp::CloseCancelOpen
    );
    runtime.open_context_menu_at(now);
    assert!(runtime.context_menu_grace_active(now + CONTEXT_MENU_GRACE - 1));
    assert!(!runtime.context_menu_grace_active(now + CONTEXT_MENU_GRACE));
    assert_eq!(
        runtime.context_menu_mouse_up(true, false, now + 1),
        MenuContextMenuMouseUp::SuppressedInitialPoint
    );
    assert_eq!(
        runtime.context_menu_mouse_up(false, false, now + 1),
        MenuContextMenuMouseUp::InertGrace
    );
    assert_eq!(
        runtime.context_menu_mouse_up(false, true, now + 1),
        MenuContextMenuMouseUp::InsideTree
    );
    assert_eq!(
        runtime.context_menu_mouse_up(false, false, now + CONTEXT_MENU_GRACE),
        MenuContextMenuMouseUp::CloseCancelOpen
    );
    runtime.clear_context_menu_gesture();
    assert!(!runtime.context_menu_grace_active(now + 1));
}

#[test]
fn hover_timers_are_generation_checked() {
    let mut runtime: Runtime = MenuRuntime::new(false, MenuParentKind::NoParent);
    let first = runtime.schedule_hover(MenuHoverTarget::Open);
    let second = runtime.schedule_hover(MenuHoverTarget::Close);
    assert_ne!(first, second);
    assert!(!runtime.take_scheduled_hover(first, MenuHoverTarget::Open));
    assert!(!runtime.take_scheduled_hover(second, MenuHoverTarget::Open));
    assert!(runtime.take_scheduled_hover(second, MenuHoverTarget::Close));
    assert!(!runtime.take_scheduled_hover(second, MenuHoverTarget::Close));

    let third = runtime.schedule_hover(MenuHoverTarget::Open);
    runtime.cancel_hover();
    assert!(!runtime.take_scheduled_hover(third, MenuHoverTarget::Open));
}

#[test]
fn focus_tracking_requests_one_focus_out_close() {
    let mut runtime: Runtime = MenuRuntime::new(true, MenuParentKind::NoParent);
    runtime.sync_focus(true);
    assert!(!runtime.take_focus_out_close_request());
    runtime.sync_focus(false);
    assert!(runtime.take_focus_out_close_request());
    assert!(!runtime.take_focus_out_close_request());

    assert!(runtime.trigger_focus_edge(true));
    assert!(!runtime.trigger_focus_edge(true));
    assert!(!runtime.trigger_focus_edge(false));
    assert!(runtime.trigger_focus_edge(true));
}

#[test]
fn popup_focus_request_follows_modality() {
    let mut runtime: Runtime = MenuRuntime::new(true, MenuParentKind::NoParent);
    runtime.request_popup_focus_on_open(
        MenuOpenChangeReason::TriggerHover,
        MenuOpenChangeSource::Pointer,
    );
    assert!(!runtime.take_popup_focus_on_open());
    runtime.request_popup_focus_on_open(
        MenuOpenChangeReason::TriggerPress,
        MenuOpenChangeSource::Keyboard,
    );
    assert!(runtime.take_popup_focus_on_open());
    assert!(!runtime.take_popup_focus_on_open());
}

#[test]
fn open_change_round_trip_with_details_and_payload() {
    let mut runtime: Runtime = MenuRuntime::new(false, MenuParentKind::NoParent);
    runtime.sync_trigger(Some(MenuTriggerMetadata::new(
        "file".to_string(),
        false,
        true,
        100,
        200,
        Some(7),
    )));
    assert_eq!(runtime.active_payload(), Some(7));

    let outcome = runtime.begin_open_change(None, true);
    assert!(outcome.changed());
    assert!(outcome.open());
    assert_eq!(outcome.trigger_id(), Some(&"file".to_string()));
    let (open, id, payload) = outcome.into_parts();
    assert!(open);
    assert_eq!(id, Some("file".to_string()));
    assert_eq!(payload, Some(7));

    runtime.finish_open_change(
        true,
        MenuOpenChangeReason::TriggerPress,
        MenuOpenChangeSource::Keyboard,
        false,
        false,
    );
    assert!(runtime.open_value());
    assert_eq!(runtime.last_open_reason(), MenuOpenChangeReason::TriggerPress);
    assert_eq!(runtime.instant_kind(), MenuInstantKind::Click);
    assert!(runtime.take_popup_focus_on_open());

    // A controlled close only records the request; the value stays open.
    runtime.finish_open_change(
        false,
        MenuOpenChangeReason::EscapeKey,
        MenuOpenChangeSource::Keyboard,
        false,
        true,
    );
    assert!(runtime.open_value());
    let outcome = runtime.begin_open_change(Some(false), false);
    assert!(!outcome.changed());
    assert!(!runtime.open_value());
}

#[test]
fn details_cancel_only_when_cancelable() {
    let mut details: MenuOpenChangeDetails<u32, String> = MenuOpenChangeDetails::new(
        MenuOpenChangeReason::ItemPress,
        MenuOpenChangeSource::Pointer,
        Some("id".to_string()),
        Some(3),
        false,
    );
    details.cancel();
    assert!(!details.is_canceled());
    assert_eq!(details.reason(), MenuOpenChangeReason::ItemPress);
    assert_eq!(details.source(), MenuOpenChangeSource::Pointer);
    assert_eq!(details.payload(), Some(&3));
    assert!(!details.prevents_unmount_on_close());
    details.prevent_unmount_on_close();
    assert!(details.prevents_unmount_on_close());

    let mut cancelable: MenuOpenChangeDetails<u32, String> = MenuOpenChangeDetails::new(
        MenuOpenChangeReason::EscapeKey,
        MenuOpenChangeSource::Keyboard,
        None,
        None,
        true,
    );
    assert!(cancelable.cancelable());
    cancelable.cancel();
    assert!(cancelable.is_canceled());
    assert_eq!(cancelable.trigger_id(), None);

    let mut item = MenuItemChangeDetails::default();
    assert!(!item.is_canceled());
    item.cancel();
    assert!(item.is_canceled());
}

#[test]
fn disabled_menu_refuses_to_open_but_allows_close() {
    assert!(!open_change_allowed(true, true));
    assert!(open_change_allowed(true, false));
    assert!(open_change_allowed(false, true));
}

#[test]
fn focus_returns_to_the_trigger_except_for_focus_out_and_menubar_handoffs() {
    assert!(returns_focus_on_close(false, MenuOpenChangeReason::EscapeKey, false));
    assert!(!returns_focus_on_close(true, MenuOpenChangeReason::EscapeKey, false));
    assert!(!returns_focus_on_close(false, MenuOpenChangeReason::FocusOut, false));
    assert!(!returns_focus_on_close(false, MenuOpenChangeReason::OutsidePress, true));
    assert!(!returns_focus_on_close(false, MenuOpenChangeReason::SiblingOpen, true));
    assert!(returns_focus_on_close(false, MenuOpenChangeReason::OutsidePress, false));
}

#[test]
fn item_activation_decisions() {
    assert_eq!(item_activation_outcome(false, Some((MenuItemKind::Item, false, true))), Some(true));
    assert_eq!(item_activation_outcome(false, Some((MenuItemKind::CheckboxItem, false, false))), Some(false));
    assert_eq!(item_activation_outcome(true, Some((MenuItemKind::Item, false, true))), None);
    assert_eq!(item_activation_outcome(false, Some((MenuItemKind::Item, true, true))), None);
    assert_eq!(item_activation_outcome(false, Some((MenuItemKind::SubmenuTrigger, false, true))), None);
    assert_eq!(item_activation_outcome(false, None), None);

    assert_eq!(highlighted_item_action(None), MenuHighlightedAction::Nothing);
    assert_eq!(
        highlighted_item_action(Some((2, MenuItemKind::SubmenuTrigger, false, false))),
        MenuHighlightedAction::OpenSubmenu(2)
    );
    assert_eq!(
        highlighted_item_action(Some((1, MenuItemKind::RadioItem, false, true))),
        MenuHighlightedAction::Activate(1)
    );
    assert_eq!(
        highlighted_item_action(Some((1, MenuItemKind::RadioItem, true, true))),
        MenuHighlightedAction::Nothing
    );
    assert_eq!(highlighted_submenu_to_open(Some((4, MenuItemKind::SubmenuTrigger, false, false))), Some(4));
    assert_eq!(highlighted_submenu_to_open(Some((4, MenuItemKind::SubmenuTrigger, true, false))), None);
    assert_eq!(highlighted_submenu_to_open(Some((4, MenuItemKind::Item, false, false))), None);
    assert!(closes_own_submenu(MenuParentKind::Submenu));
    assert!(!closes_own_submenu(MenuParentKind::Menubar));
}

#[test]
fn trigger_press_and_click_decisions() {
    assert_eq!(trigger_press(true, false, false), MenuTriggerPress::Ignore);
    assert_eq!(trigger_press(false, true, false), MenuTriggerPress::OpenFromMenubar);
    assert_eq!(trigger_press(false, true, true), MenuTriggerPress::ArmMenubarClose);
    assert_eq!(trigger_press(false, false, true), MenuTriggerPress::SetOpen(false));
    assert_eq!(trigger_press(false, false, false), MenuTriggerPress::SetOpen(true));
    assert!(trigger_click_may_close(false, true, true));
    assert!(!trigger_click_may_close(false, false, true));
    assert_eq!(trigger_tab_stop(Some(true), true), (true, 0));
    assert_eq!(trigger_tab_stop(Some(false), false), (false, -1));
    assert_eq!(trigger_tab_stop(None, true), (false, -1));
    assert_eq!(trigger_tab_stop(None, false), (true, 0));
}

#[test]
fn click_close_is_suppressed_for_the_opening_press() {
    let mut runtime: Runtime = MenuRuntime::new(true, MenuParentKind::Menubar);
    runtime.set_opened_by_current_press(true);
    assert!(!runtime.take_click_close(false, true, true));
    assert!(runtime.take_click_close(false, true, true));
    assert!(!runtime.take_click_close(false, false, true));
    assert!(!runtime.take_click_close(true, true, true));
}

#[test]
fn trigger_hover_decisions() {
    assert_eq!(
        trigger_hover(true, true, true, false, false, false, 0, 0),
        MenuTriggerHover::MenubarFollow { open: true }
    );
    assert_eq!(
        trigger_hover(true, true, true, true, false, false, 0, 0),
        MenuTriggerHover::MenubarFollow { open: false }
    );
    assert_eq!(trigger_hover(true, true, false, false, false, true, 0, 0), MenuTriggerHover::Nothing);
    assert_eq!(trigger_hover(true, false, false, false, false, false, 0, 0), MenuTriggerHover::Nothing);
    assert_eq!(trigger_hover(true, false, false, false, true, true, 0, 0), MenuTriggerHover::Nothing);
    assert_eq!(trigger_hover(true, false, false, false, false, true, 0, 0), MenuTriggerHover::OpenNow);
    assert_eq!(trigger_hover(true, false, false, false, false, true, 100, 0), MenuTriggerHover::ScheduleOpen);
    assert_eq!(trigger_hover(false, false, false, true, false, true, 100, 0), MenuTriggerHover::CancelHover);
    assert_eq!(trigger_hover(false, false, false, true, false, true, 100, 50), MenuTriggerHover::ScheduleClose);
}

#[test]
fn submenu_trigger_decisions() {
    assert_eq!(submenu_trigger_press(true, false, false), None);
    assert_eq!(submenu_trigger_press(false, true, true), None);
    assert_eq!(submenu_trigger_press(false, true, false), Some(false));
    assert_eq!(submenu_trigger_press(false, false, true), Some(true));
    assert_eq!(submenu_hover_open(false, true, false, true, 0), MenuSubmenuHoverOpen::OpenNow);
    assert_eq!(submenu_hover_open(false, true, false, true, 10), MenuSubmenuHoverOpen::ScheduleOpen);
    assert_eq!(submenu_hover_open(false, true, false, false, 0), MenuSubmenuHoverOpen::Nothing);
    assert_eq!(submenu_hover_open(false, true, true, true, 0), MenuSubmenuHoverOpen::Nothing);
    assert_eq!(submenu_hover_open(true, true, false, true, 0), MenuSubmenuHoverOpen::Nothing);
}

#[test]
fn logical_sides_and_menubar_arrows_follow_text_direction() {
    assert_eq!(resolve_logical_side(MenuSide::InlineStart, TextDirection::Ltr), MenuSide::Left);
    assert_eq!(resolve_logical_side(MenuSide::InlineStart, TextDirection::Rtl), MenuSide::Right);
    assert_eq!(resolve_logical_side(MenuSide::InlineEnd, TextDirection::Ltr), MenuSide::Right);
    assert_eq!(resolve_logical_side(MenuSide::InlineEnd, TextDirection::Rtl), MenuSide::Left);
    assert_eq!(resolve_logical_side(MenuSide::Top, TextDirection::Rtl), MenuSide::Top);
    assert_eq!(
        TextDirection::Ltr.horizontal_arrow(HorizontalArrowKey::Right),
        HorizontalDirection::Next
    );
    assert_eq!(
        TextDirection::Rtl.horizontal_arrow(HorizontalArrowKey::Right),
        HorizontalDirection::Previous
    );
    assert_eq!(horizontal_menubar_move(TextDirection::Ltr, HorizontalArrowKey::Left), MenuMove::Previous);
    assert_eq!(horizontal_menubar_move(TextDirection::Rtl, HorizontalArrowKey::Left), MenuMove::Next);
    assert!(vertical_menubar(Some(false)));
    assert!(!vertical_menubar(Some(true)));
    assert!(!vertical_menubar(None));
}

#[test]
fn submenu_links_register_replace_and_list_siblings() {
    let mut runtime: Runtime = MenuRuntime::new(true, MenuParentKind::NoParent);
    runtime.register_submenu_link(MenuSubmenuLink::new(1, 100, "one"));
    runtime.register_submenu_link(MenuSubmenuLink::new(3, 0, "three"));
    runtime.register_submenu_link(MenuSubmenuLink::new(1, 250, "one again"));
    assert_eq!(runtime.all_submenu_links().len(), 2);
    let link = runtime.submenu_link(1).expect("registered");
    assert_eq!(*link.commands(), "one again");
    assert_eq!(link.close_delay(), 250);
    assert!(runtime.submenu_link(2).is_none());
    assert!(runtime.open_child_link().is_none());

    let siblings = runtime.sibling_links_except(1);
    assert_eq!(siblings.len(), 1);
    assert_eq!(siblings[0].item_index(), 3);

    runtime.note_submenu_opened(1);
    assert_eq!(runtime.open_child_link().map(|l| l.item_index()), Some(1));
}

#[test]
fn child_close_uses_the_link_close_delay_and_respects_the_polygon() {
    let mut runtime = runtime_with(&["Alpha", "Branch"]);
    runtime.register_submenu_link(MenuSubmenuLink::new(1, 300, "branch"));
    runtime.note_submenu_opened(1);
    runtime.move_highlight(MenuMove::First, true);
    assert_eq!(runtime.reconcile_child_hover(true), MenuChildHoverDirective::NoAction);
    match runtime.reconcile_child_hover(false) {
        MenuChildHoverDirective::ScheduleClose { item_index, close_delay, generation } => {
            assert_eq!(item_index, 1);
            assert_eq!(close_delay, 300);
            assert!(runtime.take_scheduled_child_close(generation, 1));
        }
        other => panic!("unexpected directive {other:?}"),
    }
}

#[test]
fn safe_polygon_target_is_armed_settled_and_disarmed() {
    let mut runtime: Runtime = MenuRuntime::new(true, MenuParentKind::NoParent);
    assert_eq!(runtime.settle_child_polygon(true), None);
    runtime.arm_child_polygon(2);
    assert_eq!(runtime.child_polygon_item(), Some(2));
    assert_eq!(runtime.settle_child_polygon(false), Some(2));
    assert_eq!(runtime.child_polygon_item(), Some(2));
    assert_eq!(runtime.settle_child_polygon(true), Some(2));
    assert_eq!(runtime.child_polygon_item(), None);

    runtime.arm_child_polygon(4);
    assert!(!runtime.note_submenu_closed(3));
    assert!(runtime.note_submenu_closed(4));
    assert_eq!(runtime.child_polygon_item(), None);
    runtime.arm_child_polygon(5);
    runtime.disarm_child_polygon();
    assert_eq!(runtime.child_polygon_item(), None);
}

#[test]
fn effective_placement_reports_changes_and_feeds_popup_state() {
    let mut runtime: Runtime = MenuRuntime::new(true, MenuParentKind::Submenu);
    assert_eq!(runtime.effective_side(), None);
    assert!(runtime.set_effective_placement(MenuSide::Right, MenuAlign::Start));
    assert!(!runtime.set_effective_placement(MenuSide::Right, MenuAlign::Start));
    assert!(runtime.set_effective_placement(MenuSide::Left, MenuAlign::Start));
    assert_eq!(runtime.effective_align(), Some(MenuAlign::Start));
    let popup = runtime.popup_state(MenuSide::Bottom, MenuAlign::Center, false);
    assert_eq!(popup.side, MenuSide::Left);
    assert_eq!(popup.align, MenuAlign::Start);
    assert!(popup.nested);
    assert!(popup.open);
}

#[test]
fn part_states_reflect_open_mount_and_highlight() {
    let mut runtime = runtime_with(&["Alpha", "Beta"]);
    let props = MenuProps::new(true, true, true, MenuOrientation::Vertical, true, false);
    let root = runtime.root_state(&props);
    assert!(root.open);
    assert!(root.disabled);
    runtime.move_highlight(MenuMove::Last, true);
    assert!(runtime.item_state(Some(1), false).highlighted);
    assert!(!runtime.item_state(Some(0), false).highlighted);
    assert!(!runtime.item_state(None, false).highlighted);
    assert!(runtime.link_item_state(Some(1)).highlighted);
    assert!(runtime.checkbox_item_state(Some(1), true, true).disabled);
    assert!(runtime.radio_item_state(Some(0), false, true).checked);
    assert!(runtime.radio_group_state(true).disabled);
    assert!(!runtime.group_state().disabled);

    runtime.commit_open(false, false, true);
    assert!(!runtime.portal_state(false).mounted);
    assert!(runtime.portal_state(true).mounted);
    assert!(!runtime.backdrop_state(false).open);
}

#[test]
fn item_activation_lookup_reports_kind_disabled_and_close() {
    let mut runtime: Runtime = MenuRuntime::new(true, MenuParentKind::NoParent);
    runtime.sync_items(vec![
        labelled(0, "Alpha", false),
        MenuItemMetadata::new(1, MenuItemKind::CheckboxItem, None, true, false),
    ]);
    assert_eq!(runtime.item_activation(1), Some((MenuItemKind::CheckboxItem, true, false)));
    assert_eq!(runtime.item_activation(0), Some((MenuItemKind::Item, false, true)));
    assert_eq!(runtime.item_activation(5), None);
    runtime.clear_highlight();
    assert!(runtime.highlighted_activation().is_none());
}

#[test]
fn pointer_highlight_changes_only_on_a_new_item() {
    let mut runtime = runtime_with(&["Alpha", "Beta"]);
    runtime.note_pointer_moved();
    assert!(runtime.allow_mouse_enter());
    assert!(runtime.highlight_item_from_pointer(1));
    assert!(!runtime.highlight_item_from_pointer(1));
    assert_eq!(highlighted(&runtime), Some(1));
}

#[test]
fn hover_opened_menu_sticks_after_commit() {
    let mut runtime: Runtime = MenuRuntime::new(false, MenuParentKind::NoParent);
    runtime.record_open_change(MenuOpenChangeReason::TriggerHover, MenuOpenChangeSource::Pointer);
    runtime.commit_open(true, false, true);
    assert!(runtime.stick_if_open());
    runtime.commit_open(false, false, true);
    assert!(!runtime.stick_if_open());
}

#[test]
fn wiring_hands_out_dense_indices_and_collects_defaults() {
    let mut wiring: MenuChildWiring<&str, u8> = MenuChildWiring::new();
    wiring.register_trigger("trigger", Some(9));
    wiring.register_group_label("Group".to_string());
    let first = wiring.next_item_index();
    assert_eq!(wiring.register_item(labelled(first, "Alpha", false), Some(1)), 0);
    let radio_group = wiring.next_radio_group_index();
    let second = wiring.next_item_index();
    assert_eq!(wiring.register_item(labelled(second, "Beta", false), None), 1);
    wiring.register_radio_default(radio_group, Some(second));
    wiring.register_checkbox_default(first, true);
    wiring.register_popup_focus_handle(4);
    assert_eq!(wiring.next_radio_group_index(), 1);
    assert_eq!(wiring.next_item_index(), 2);

    let wired = wiring.finish();
    assert_eq!(wired.trigger, Some("trigger"));
    assert_eq!(wired.items.len(), 2);
    assert_eq!(wired.items[1].index(), 1);
    assert_eq!(wired.group_labels, vec!["Group".to_string()]);
    assert_eq!(wired.focus_handles, vec![9, 1, 4]);
    assert_eq!(wired.popup_focus_handle, Some(4));
    assert_eq!(wired.checkbox_defaults, vec![(0, true)]);
    assert_eq!(wired.radio_defaults, vec![(0, Some(1))]);
}

#[test]
fn polygon_verdicts_schedule_close_or_settle() {
    let mut runtime: Runtime = MenuRuntime::new(true, MenuParentKind::NoParent);
    runtime.note_submenu_opened(2);
    runtime.arm_child_polygon(2);
    let generation = match runtime.apply_polygon_verdict(2, MenuPolygonVerdict::Inside) {
        MenuPolygonDirective::ScheduleClose { generation, delay } => {
            assert_eq!(delay, POLYGON_CLOSE_DELAY);
            generation
        }
        other => panic!("unexpected directive {other:?}"),
    };
    assert_eq!(runtime.pending_child_close_item(), Some(2));
    assert_eq!(
        runtime.apply_polygon_verdict(2, MenuPolygonVerdict::LandedPopup),
        MenuPolygonDirective::Settled
    );
    assert_eq!(runtime.pending_child_close_item(), None);
    assert!(!runtime.take_scheduled_child_close(generation, 2));
    assert_eq!(runtime.child_polygon_item(), Some(2));
    assert_eq!(
        runtime.apply_polygon_verdict(2, MenuPolygonVerdict::Outside),
        MenuPolygonDirective::CloseBranch
    );
    assert_eq!(runtime.child_polygon_item(), None);
}

#[test]
fn collision_flips_only_to_a_roomier_opposite_side() {
    assert_eq!(flip_for_collision(MenuSide::Bottom, true, true, true), MenuSide::Bottom);
    assert_eq!(flip_for_collision(MenuSide::Bottom, true, false, true), MenuSide::Top);
    assert_eq!(flip_for_collision(MenuSide::Bottom, true, false, false), MenuSide::Bottom);
    assert_eq!(flip_for_collision(MenuSide::Top, true, false, true), MenuSide::Bottom);
    assert_eq!(flip_for_collision(MenuSide::Left, true, false, true), MenuSide::Right);
    assert_eq!(flip_for_collision(MenuSide::Right, true, false, true), MenuSide::Left);
    assert_eq!(flip_for_collision(MenuSide::Right, false, false, true), MenuSide::Right);
    assert_eq!(flip_for_collision(MenuSide::InlineStart, true, false, true), MenuSide::InlineStart);
}

#[test]
fn typing_never_opens_closes_or_activates() {
    let mut runtime = runtime_with(&["Alpha", "Beta"]);
    runtime.note_submenu_opened(1);
    runtime.register_checkbox_default(0, true);
    let outcome = runtime.apply_typeahead("b", 60 * SECOND);
    assert_eq!(outcome, MenuTypeaheadOutcome::Moved);
    assert!(runtime.open_value());
    assert_eq!(runtime.open_submenu_item(), Some(1));
    assert!(runtime.checkbox_checked(0));
    assert_eq!(runtime.instant_kind(), MenuInstantKind::NotInstant);
    assert_eq!(highlighted(&runtime), Some(1));
}

#[test]
fn checkbox_toggle_respects_control_and_cancellation() {
    let mut runtime: Runtime = MenuRuntime::new(true, MenuParentKind::NoParent);
    runtime.register_checkbox_default(0, true);
    assert!(!runtime.checkbox_toggle_target(0, None));
    assert!(runtime.checkbox_toggle_target(0, Some(false)));
    assert!(runtime.checkbox_toggle_target(5, None));

    assert!(!runtime.finish_checkbox_toggle(0, false, true, false));
    assert!(runtime.checkbox_checked(0));
    assert!(!runtime.finish_checkbox_toggle(0, false, false, true));
    assert!(runtime.checkbox_checked(0));
    assert!(runtime.finish_checkbox_toggle(0, false, false, false));
    assert!(!runtime.checkbox_checked(0));
}

#[test]
fn radio_selection_respects_control_and_cancellation() {
    let mut runtime: Runtime = MenuRuntime::new(true, MenuParentKind::NoParent);
    runtime.register_radio_default(1, Some(3));
    assert!(runtime.radio_item_checked(1, 3, None));
    assert!(!runtime.radio_item_checked(1, 4, None));
    assert!(runtime.radio_item_checked(1, 4, Some(true)));
    assert!(!runtime.radio_item_checked(2, 0, None));

    assert!(!runtime.finish_radio_selection(1, 4, true, false));
    assert_eq!(runtime.radio_selected(1), Some(3));
    assert!(!runtime.finish_radio_selection(1, 4, false, true));
    assert_eq!(runtime.radio_selected(1), Some(3));
    assert!(runtime.finish_radio_selection(1, 4, false, false));
    assert_eq!(runtime.radio_selected(1), Some(4));
}

#[test]
fn leaving_an_open_branch_trigger_arms_and_schedules_its_close() {
    let mut runtime: Runtime = MenuRuntime::new(true, MenuParentKind::NoParent);
    runtime.note_submenu_opened(2);
    let (generation, delay) = runtime.leave_open_branch_trigger(2, 0, true);
    assert_eq!(delay, POLYGON_CLOSE_DELAY);
    assert_eq!(runtime.child_polygon_item(), Some(2));
    assert_eq!(runtime.pending_child_close_item(), Some(2));
    runtime.enter_branch_trigger();
    assert_eq!(runtime.child_polygon_item(), None);
    assert!(!runtime.take_scheduled_child_close(generation, 2));

    let (generation, delay) = runtime.leave_open_branch_trigger(2, 300_000_000, false);
    assert_eq!(delay, 300_000_000);
    assert_eq!(runtime.child_polygon_item(), None);
    assert!(runtime.take_scheduled_child_close(generation, 2));
}

#[test]
fn positioner_defaults_modality_and_cutout() {
    assert_eq!(default_placement(MenuParentKind::Submenu, None), (MenuSide::InlineEnd, MenuAlign::Start));
    assert_eq!(default_placement(MenuParentKind::Menubar, Some(true)), (MenuSide::Bottom, MenuAlign::Start));
    assert_eq!(default_placement(MenuParentKind::Menubar, None), (MenuSide::Bottom, MenuAlign::Start));
    assert_eq!(default_placement(MenuParentKind::Menubar, Some(false)), (MenuSide::InlineEnd, MenuAlign::Start));
    assert_eq!(default_placement(MenuParentKind::ContextMenu, None), (MenuSide::Bottom, MenuAlign::Start));
    assert_eq!(default_placement(MenuParentKind::NoParent, None), (MenuSide::Bottom, MenuAlign::Center));

    assert!(context_menu_offsets_apply(MenuParentKind::ContextMenu, false, MenuAlign::Start));
    assert!(!context_menu_offsets_apply(MenuParentKind::ContextMenu, true, MenuAlign::Start));
    assert!(!context_menu_offsets_apply(MenuParentKind::ContextMenu, false, MenuAlign::Center));
    assert!(!context_menu_offsets_apply(MenuParentKind::NoParent, false, MenuAlign::Start));

    assert!(positioner_modal(MenuParentKind::Menubar, true, false, true));
    assert!(!positioner_modal(MenuParentKind::Menubar, false, true, false));
    assert!(positioner_modal(MenuParentKind::NoParent, false, true, false));
    assert!(!positioner_modal(MenuParentKind::NoParent, false, true, true));
    assert!(positioner_modal(MenuParentKind::ContextMenu, false, false, true));
    assert!(!positioner_modal(MenuParentKind::Submenu, true, true, false));

    assert_eq!(backdrop_cutout(MenuParentKind::ContextMenu, false), MenuBackdropCutout::NoCutout);
    assert_eq!(backdrop_cutout(MenuParentKind::Menubar, true), MenuBackdropCutout::MenubarRow);
    assert_eq!(backdrop_cutout(MenuParentKind::NoParent, false), MenuBackdropCutout::Trigger);
}

#[test]
fn menubar_focus_and_handoff_decisions() {
    assert!(menubar_focus_opens(true, false, false, true));
    assert!(!menubar_focus_opens(false, false, false, true));
    assert!(!menubar_focus_opens(true, true, false, true));
    assert!(!menubar_focus_opens(true, false, true, true));
    assert!(!menubar_focus_opens(true, false, false, false));
    assert!(handoff_highlights_first(true, MenuOpenChangeSource::Keyboard));
    assert!(!handoff_highlights_first(true, MenuOpenChangeSource::Pointer));
    assert!(!handoff_highlights_first(false, MenuOpenChangeSource::Keyboard));
}

#[test]
fn sync_items_clamps_the_highlight_to_the_new_item_count() {
    let mut runtime = runtime_with(&["Alpha", "Beta", "Gamma"]);
    runtime.move_highlight(MenuMove::Last, true);
    assert_eq!(highlighted(&runtime), Some(2));
    runtime.sync_items(vec![labelled(0, "Alpha", false)]);
    assert_eq!(highlighted(&runtime), Some(0));
    runtime.sync_items(vec![labelled(0, "Alpha", false), labelled(1, "Beta", false)]);
    assert_eq!(highlighted(&runtime), Some(0));
    runtime.sync_items(Vec::new());
    assert_eq!(highlighted(&runtime), None);
}

#[test]
fn a_canceled_open_change_leaves_the_runtime_untouched() {
    let mut runtime: Runtime = MenuRuntime::new(false, MenuParentKind::NoParent);
    assert!(!runtime.settle_open_change(
        true,
        MenuOpenChangeReason::TriggerPress,
        MenuOpenChangeSource::Keyboard,
        true,
        false,
        false
    ));
    assert!(!runtime.open_value());
    assert_eq!(runtime.last_open_reason(), MenuOpenChangeReason::Unspecified);
    assert!(runtime.settle_open_change(
        true,
        MenuOpenChangeReason::TriggerPress,
        MenuOpenChangeSource::Keyboard,
        false,
        false,
        false
    ));
    assert!(runtime.open_value());
    assert_eq!(runtime.instant_kind(), MenuInstantKind::Click);
    assert!(runtime.settle_open_change(
        false,
        MenuOpenChangeReason::EscapeKey,
        MenuOpenChangeSource::Keyboard,
        false,
        true,
        false
    ));
    assert!(!runtime.open_value());
    assert!(runtime.mounted_value(false));
}

#[test]
fn open_change_cascade_closes_siblings_on_open_and_descendants_on_close() {
    assert_eq!(
        open_change_cascade(true, true, false),
        MenuOpenChangeCascade { close_menubar_sibling: true, close_parent_siblings: false, close_descendants: false }
    );
    assert_eq!(
        open_change_cascade(true, false, true),
        MenuOpenChangeCascade { close_menubar_sibling: false, close_parent_siblings: true, close_descendants: false }
    );
    assert_eq!(
        open_change_cascade(false, true, true),
        MenuOpenChangeCascade { close_menubar_sibling: false, close_parent_siblings: false, close_descendants: true }
    );
}

#[test]
fn inline_guards_of_the_parts() {
    assert_eq!(trigger_a11y_request(true, false, false), Some(true));
    assert_eq!(trigger_a11y_request(true, false, true), None);
    assert_eq!(trigger_a11y_request(false, false, true), Some(false));
    assert_eq!(trigger_a11y_request(false, false, false), None);
    assert_eq!(trigger_a11y_request(true, true, false), None);

    assert_eq!(space_action(true), MenuSpaceAction::Typeahead);
    assert_eq!(space_action(false), MenuSpaceAction::Activate);

    assert_eq!(popup_arrow_intent(TextDirection::Ltr, HorizontalArrowKey::Right), MenuArrowIntent::OpenSubmenu);
    assert_eq!(popup_arrow_intent(TextDirection::Ltr, HorizontalArrowKey::Left), MenuArrowIntent::CloseSubmenu);
    assert_eq!(popup_arrow_intent(TextDirection::Rtl, HorizontalArrowKey::Right), MenuArrowIntent::CloseSubmenu);
    assert_eq!(popup_arrow_intent(TextDirection::Rtl, HorizontalArrowKey::Left), MenuArrowIntent::OpenSubmenu);

    assert_eq!(drag_release(false, false), MenuDragRelease::ActivateThenCloseTree);
    assert_eq!(drag_release(true, false), MenuDragRelease::Ignore);
    assert_eq!(drag_release(false, true), MenuDragRelease::Ignore);
}

#[test]
fn item_count_follows_the_synced_items() {
    let mut runtime = runtime_with(&["Alpha", "Beta", "Gamma"]);
    assert_eq!(runtime.item_count(), 3);
    runtime.sync_items(Vec::new());
    assert_eq!(runtime.item_count(), 0);
}

#[test]
fn interleaved_registrations_number_items_densely() {
    let mut wiring: MenuChildWiring<&str, u8> = MenuChildWiring::new();
    let mut indices = Vec::new();
    for step in 0..9usize {
        match step % 3 {
            0 => {
                let index = wiring.next_item_index();
                indices.push(wiring.register_item(labelled(index, "Item", false), None));
            }
            1 => wiring.register_group_label(format!("Group {step}")),
            _ => {
                wiring.next_radio_group_index();
            }
        }
    }
    wiring.register_trigger("trigger", None);
    assert_eq!(indices, vec![0, 1, 2]);
    assert_eq!(wiring.next_item_index(), 3);
    let wired = wiring.finish();
    let positions: Vec<usize> = wired.items.iter().map(|item| item.index()).collect();
    assert_eq!(positions, vec![0, 1, 2]);
    assert_eq!(wired.group_labels.len(), 3);
}
