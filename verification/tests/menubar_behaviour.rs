use base_gpui::direction::{HorizontalDirection, TextDirection};
use base_gpui::menu::{MenuMove, MenuOpenChangeReason, MenuOpenChangeSource};
use base_gpui::menubar::runtime::{
    handoff_source, horizontal_move, menubar_key_move, menubar_move, MenubarKey,
};
use base_gpui::menubar::{
    wire_trigger_slots, MenubarMove, MenubarOrientation, MenubarProps, MenubarRuntime,
    MenubarTriggerSlot,
};

type Runtime = MenubarRuntime<&'static str, u32>;

fn bar(count: usize) -> Runtime {
    let mut runtime: Runtime = MenubarRuntime::new();
    runtime.sync_triggers((0..count).map(|_| MenubarTriggerSlot::new(false)).collect());
    runtime.reconcile();
    runtime
}

#[test]
fn empty_menubar_has_no_tab_stop() {
    let mut runtime: Runtime = MenubarRuntime::new();
    runtime.reconcile();
    assert_eq!(runtime.highlighted_index(), None);
    runtime.move_highlight(MenubarMove::Next, true);
    assert_eq!(runtime.highlighted_index(), None);
    assert_eq!(runtime.trigger_count(), 0);
}

#[test]
fn reconcile_twice_is_the_same_as_once() {
    let mut runtime = bar(3);
    runtime.set_highlight(2);
    runtime.note_child_open_change(2, true, MenuOpenChangeReason::TriggerPress);
    runtime.sync_triggers(vec![MenubarTriggerSlot::new(false), MenubarTriggerSlot::new(false)]);
    runtime.reconcile();
    let once = (runtime.highlighted_index(), runtime.open_menu_index(), runtime.has_submenu_open());
    runtime.reconcile();
    let twice = (runtime.highlighted_index(), runtime.open_menu_index(), runtime.has_submenu_open());
    assert_eq!(once, twice);
    assert_eq!(once, (Some(0), None, false));
}

#[test]
fn registrations_survive_rewiring_and_disabled_follows_the_fresh_slot() {
    let mut runtime = bar(2);
    runtime.register_trigger(0, false, Some("file"), 1, 2);
    runtime.register_trigger(1, false, Some("edit"), 3, 4);
    runtime.register_trigger(7, false, Some("ignored"), 9, 9);
    runtime.sync_triggers(vec![MenubarTriggerSlot::new(true), MenubarTriggerSlot::new(false)]);
    runtime.reconcile();
    assert_eq!(runtime.open_command(0), Some(&1));
    assert_eq!(runtime.open_command(1), Some(&3));
    assert_eq!(runtime.open_command(2), None);
    assert!(runtime.trigger_disabled(0));
    assert!(!runtime.trigger_disabled(5));
    assert_eq!(runtime.highlighted_focus_handle(), Some(&"file"));
    runtime.set_highlight(1);
    assert_eq!(runtime.highlighted_focus_handle(), Some(&"edit"));
}

#[test]
fn open_sibling_close_command_names_the_open_menu() {
    let mut runtime = bar(3);
    runtime.register_trigger(0, false, None, 10, 20);
    runtime.register_trigger(2, false, None, 12, 22);
    runtime.note_child_open_change(2, true, MenuOpenChangeReason::TriggerPress);
    assert_eq!(runtime.open_sibling_close_command(0), Some(&22));
    assert_eq!(runtime.open_sibling_close_command(2), None);
}

#[test]
fn handoff_is_refused_for_the_open_menu_and_disabled_targets() {
    let mut runtime: Runtime = MenubarRuntime::new();
    runtime.sync_triggers(vec![
        MenubarTriggerSlot::new(false),
        MenubarTriggerSlot::new(true),
        MenubarTriggerSlot::new(false),
    ]);
    runtime.reconcile();
    runtime.note_child_open_change(0, true, MenuOpenChangeReason::TriggerPress);
    assert!(!runtime.hand_off_allowed(0, false));
    assert!(!runtime.hand_off_allowed(1, false));
    assert!(runtime.hand_off_allowed(2, false));
    assert!(!runtime.hand_off_allowed(2, true));
}

#[test]
fn move_focus_hands_off_only_while_a_menu_is_open() {
    let mut runtime = bar(3);
    assert_eq!(runtime.move_focus(MenubarMove::Next, true), None);
    assert!(runtime.is_tab_stop(1));
    runtime.note_child_open_change(1, true, MenuOpenChangeReason::TriggerPress);
    assert_eq!(runtime.move_focus(MenubarMove::Next, true), Some(2));
    assert_eq!(runtime.move_focus(MenubarMove::Next, true), Some(0));
    assert_eq!(runtime.relay(0, MenubarMove::Previous, false), Some(0));
    assert_eq!(runtime.relay(2, MenubarMove::Previous, false), Some(1));
}

#[test]
fn key_bindings_depend_on_orientation_and_direction() {
    let h = MenubarOrientation::Horizontal;
    let v = MenubarOrientation::Vertical;
    assert_eq!(menubar_key_move(h, TextDirection::Ltr, MenubarKey::Right), Some(MenubarMove::Next));
    assert_eq!(menubar_key_move(h, TextDirection::Rtl, MenubarKey::Right), Some(MenubarMove::Previous));
    assert_eq!(menubar_key_move(h, TextDirection::Ltr, MenubarKey::Left), Some(MenubarMove::Previous));
    assert_eq!(menubar_key_move(h, TextDirection::Ltr, MenubarKey::Down), None);
    assert_eq!(menubar_key_move(v, TextDirection::Ltr, MenubarKey::Down), Some(MenubarMove::Next));
    assert_eq!(menubar_key_move(v, TextDirection::Ltr, MenubarKey::Up), Some(MenubarMove::Previous));
    assert_eq!(menubar_key_move(v, TextDirection::Ltr, MenubarKey::Right), None);
    assert_eq!(menubar_key_move(v, TextDirection::Rtl, MenubarKey::Home), Some(MenubarMove::First));
    assert_eq!(menubar_key_move(h, TextDirection::Rtl, MenubarKey::End), Some(MenubarMove::Last));
}

#[test]
fn move_conversions_and_handoff_source() {
    assert_eq!(menubar_move(MenuMove::Next), MenubarMove::Next);
    assert_eq!(menubar_move(MenuMove::Previous), MenubarMove::Previous);
    assert_eq!(menubar_move(MenuMove::First), MenubarMove::First);
    assert_eq!(menubar_move(MenuMove::Last), MenubarMove::Last);
    assert_eq!(horizontal_move(HorizontalDirection::Next), MenubarMove::Next);
    assert_eq!(horizontal_move(HorizontalDirection::Previous), MenubarMove::Previous);
    assert_eq!(handoff_source(MenuOpenChangeReason::ListNavigation), MenuOpenChangeSource::Keyboard);
    assert_eq!(handoff_source(MenuOpenChangeReason::TriggerHover), MenuOpenChangeSource::Pointer);
}

#[test]
fn props_default_to_a_horizontal_looping_bar() {
    let props = MenubarProps::default();
    assert_eq!(props.orientation(), MenubarOrientation::Horizontal);
    assert!(props.loop_focus());
    assert!(props.modal());
    assert!(!props.disabled());
}

#[test]
fn wiring_assigns_trigger_indices_to_hosted_menus_only() {
    let children = [Some(false), None, Some(true), None, Some(false)];
    let (slots, indices): (Vec<MenubarTriggerSlot<(), ()>>, Vec<Option<usize>>) =
        wire_trigger_slots(false, &children);
    assert_eq!(indices, vec![Some(0), None, Some(1), None, Some(2)]);
    assert_eq!(slots.len(), 3);
    assert!(!slots[0].disabled());
    assert!(slots[1].disabled());
    assert!(!slots[2].disabled());

    let (all_disabled, _): (Vec<MenubarTriggerSlot<(), ()>>, Vec<Option<usize>>) =
        wire_trigger_slots(true, &children);
    assert!(all_disabled.iter().all(|slot| slot.disabled()));
}
