//! The per-menu runtime: every decision a menu makes about its open state,
//! highlight, typeahead, hover timers, submenu branches and the style-state
//! facts its parts render from. Each `MenuRoot` and each `MenuSubmenuRoot`
//! owns one; the host links them into a tree through [`MenuSubmenuLink`]s.
//!
//! Times are nanoseconds on the host's monotonic clock. Geometry (trigger,
//! popup and item bounds, the context-menu anchor point, the safe polygon),
//! focus handles and callbacks stay with the host, which passes in the facts
//! the runtime decides on (for instance whether a mouse-up landed near the
//! initial cursor point).
use std::collections::HashMap;
use vstd::prelude::*;

use crate::menu::details::{
    MenuItemMetadata, MenuItemView, MenuOpenChangeOutcome, MenuOpenChangeOutcomeView,
    MenuSubmenuLink, MenuTriggerMetadata, MenuTriggerView,
};
use crate::menu::kinds::{
    bump_generation, elapsed, elapsed_between, next_generation, MenuChildHoverDirective,
    MenuContextMenuMouseUp, MenuHoverTarget, MenuInstantKind, MenuItemKind, MenuMove,
    MenuOpenChangeReason, MenuOpenChangeSource, MenuParentKind, MenuPolygonDirective,
    MenuPolygonVerdict, MenuTypeaheadOutcome, CONTEXT_MENU_GRACE, POLYGON_CLOSE_DELAY,
    TYPEAHEAD_RESET_AFTER,
};
use crate::menu::props::{MenuAlign, MenuProps, MenuSide};
use crate::menu::style_state::{
    MenuBackdropStyleState, MenuCheckboxItemIndicatorStyleState, MenuCheckboxItemStyleState,
    MenuGroupLabelStyleState, MenuGroupStyleState, MenuItemStyleState, MenuLinkItemStyleState,
    MenuPopupStyleState, MenuPortalStyleState, MenuPositionerStyleState, MenuRadioGroupStyleState,
    MenuRadioItemIndicatorStyleState, MenuRadioItemStyleState, MenuRootStyleState,
    MenuSubmenuTriggerStyleState, MenuTriggerStyleState,
};
use crate::menu::text::{
    chars_eq, chars_of, concat_chars, is_prefix_chars, lowercase_chars, repeats_one_char,
    repeats_one_char_chars, trim, trim_chars, trim_start, trim_start_chars, unicode_lowercase,
};

verus! {



/// A delayed trigger hover transition waiting for its timer.
#[derive(Clone, Copy, Debug, PartialEq, Eq, Structural)]
pub struct MenuPendingHover {
    pub generation: u64,
    pub target: MenuHoverTarget,
}

/// A delayed close of the open child branch waiting for its timer.
#[derive(Clone, Copy, Debug, PartialEq, Eq, Structural)]
pub struct MenuPendingChildClose {
    pub generation: u64,
    pub item_index: usize,
}

/// Abstract state of a [`MenuRuntime`].
pub struct MenuRuntimeView<P, I, L> {
    pub open: bool,
    pub parent_kind: MenuParentKind,
    pub context_menu_grace_deadline: Option<u64>,
    pub last_open_reason: MenuOpenChangeReason,
    pub last_open_source: MenuOpenChangeSource,
    pub instant: MenuInstantKind,
    pub prevent_unmount_on_close: bool,
    pub trigger: Option<MenuTriggerView<P, I>>,
    pub items: Seq<MenuItemView>,
    pub group_labels: Seq<Seq<char>>,
    pub highlighted_index: Option<usize>,
    pub typeahead: Seq<char>,
    pub last_typeahead_at: Option<u64>,
    pub allow_mouse_enter: bool,
    pub hover_enabled: bool,
    pub stick_if_open: bool,
    pub checkbox_checked: Map<usize, bool>,
    pub radio_selected: Map<usize, Option<usize>>,
    pub effective_side: Option<MenuSide>,
    pub effective_align: Option<MenuAlign>,
    pub focus_popup_on_open: bool,
    pub was_focused: bool,
    pub trigger_was_focused: bool,
    pub focus_out_close_requested: bool,
    pub hover_generation: u64,
    pub pending_hover: Option<MenuPendingHover>,
    pub submenu_links: Seq<MenuSubmenuLink<L>>,
    pub open_submenu_item: Option<usize>,
    pub child_close_generation: u64,
    pub pending_child_close: Option<MenuPendingChildClose>,
    pub child_polygon_item: Option<usize>,
    pub opened_by_current_press: bool,
}

/// Where a roving highlight lands after one move over `len` items.
pub open spec fn moved_highlight(len: nat, current: Option<usize>, direction: MenuMove, loop_focus: bool) -> Option<usize> {
    if len == 0 {
        current
    } else {
        let last = (len - 1) as usize;
        match direction {
            MenuMove::First => Some(0usize),
            MenuMove::Last => Some(last),
            MenuMove::Next => match current {
                None => Some(0usize),
                Some(index) => if index >= last {
                    Some(if loop_focus { 0usize } else { last })
                } else {
                    Some((index + 1) as usize)
                },
            },
            MenuMove::Previous => match current {
                None => Some(last),
                Some(index) => if index == 0 {
                    Some(if loop_focus { last } else { 0usize })
                } else {
                    Some((index - 1) as usize)
                },
            },
        }
    }
}

/// Where a roving highlight lands after one move over `len` items (see
/// [`moved_highlight`]).
pub fn next_highlight(len: usize, current: Option<usize>, direction: MenuMove, loop_focus: bool) -> (r: Option<usize>)
    ensures
        r == moved_highlight(len as nat, current, direction, loop_focus),
{
    if len == 0 {
        return current;
    }
    let last = len - 1;
    match direction {
        MenuMove::First => Some(0),
        MenuMove::Last => Some(last),
        MenuMove::Next => match current {
            None => Some(0),
            Some(index) => if index >= last {
                Some(if loop_focus { 0 } else { last })
            } else {
                Some(index + 1)
            },
        },
        MenuMove::Previous => match current {
            None => Some(last),
            Some(index) => if index == 0 {
                Some(if loop_focus { last } else { 0 })
            } else {
                Some(index - 1)
            },
        },
    }
}

/// The first registered item whose index is `index`.
pub open spec fn item_lookup(items: Seq<MenuItemView>, index: usize) -> Option<MenuItemView>
    decreases items.len(),
{
    if items.len() == 0 {
        None
    } else if items[0].index == index {
        Some(items[0])
    } else {
        item_lookup(items.drop_first(), index)
    }
}

/// Position of the first submenu link anchored at `item_index`.
pub open spec fn link_position<L>(links: Seq<MenuSubmenuLink<L>>, item_index: usize) -> Option<int>
    decreases links.len(),
{
    if links.len() == 0 {
        None
    } else if links[0].item_index == item_index {
        Some(0int)
    } else {
        match link_position(links.drop_first(), item_index) {
            Some(p) => Some(p + 1),
            None => None,
        }
    }
}


proof fn lemma_link_position_first<L>(links: Seq<MenuSubmenuLink<L>>, item_index: usize, i: int)
    requires
        0 <= i < links.len(),
        links[i].item_index == item_index,
        forall|k: int| 0 <= k < i ==> links[k].item_index != item_index,
    ensures
        link_position(links, item_index) == Some(i),
    decreases i,
{
    if i > 0 {
        lemma_link_position_first(links.drop_first(), item_index, i - 1);
    }
}

proof fn lemma_link_position_bounds<L>(links: Seq<MenuSubmenuLink<L>>, item_index: usize)
    ensures
        link_position(links, item_index) matches Some(p) ==> 0 <= p < links.len() && links[p].item_index
            == item_index,
    decreases links.len(),
{
    if links.len() > 0 {
        lemma_link_position_bounds(links.drop_first(), item_index);
    }
}

proof fn lemma_link_position_none<L>(links: Seq<MenuSubmenuLink<L>>, item_index: usize)
    requires
        forall|k: int| 0 <= k < links.len() ==> links[k].item_index != item_index,
    ensures
        link_position(links, item_index) is None,
    decreases links.len(),
{
    if links.len() > 0 {
        lemma_link_position_none(links.drop_first(), item_index);
    }
}

/// The links after registering `link`: it replaces the first link anchored
/// at the same item, or is appended.
pub open spec fn links_after_register<L>(links: Seq<MenuSubmenuLink<L>>, link: MenuSubmenuLink<L>) -> Seq<MenuSubmenuLink<L>> {
    match link_position(links, link.item_index) {
        Some(p) => links.update(p, link),
        None => links.push(link),
    }
}

/// Whether an item label matches a lower-cased typeahead key.
pub open spec fn label_matches(label: Option<Seq<char>>, key: Seq<char>) -> bool {
    match label {
        Some(l) => key.is_prefix_of(unicode_lowercase(l)),
        None => false,
    }
}

/// The item position visited at step `offset` of a typeahead scan.
pub open spec fn scan_position(len: nat, current: Option<usize>, offset: nat) -> int {
    match current {
        Some(c) => (c + offset) % (len as int),
        None => offset - 1,
    }
}

/// First enabled item matching `key`, scanning steps `offset..=len`.
pub open spec fn typeahead_scan(items: Seq<MenuItemView>, current: Option<usize>, key: Seq<char>, offset: nat) -> Option<int>
    decreases items.len() + 1 - offset,
{
    if offset == 0 || offset > items.len() {
        None
    } else {
        let p = scan_position(items.len(), current, offset);
        if !items[p].disabled && label_matches(items[p].label, key) {
            Some(p)
        } else {
            typeahead_scan(items, current, key, offset + 1)
        }
    }
}

/// The item a typeahead search for `search` lands on, starting after the
/// current highlight and wrapping around.
#[verifier::opaque]
pub open spec fn typeahead_target(items: Seq<MenuItemView>, current: Option<usize>, search: Seq<char>) -> Option<int> {
    let key = unicode_lowercase(trim_start(search));
    if key.len() == 0 || items.len() == 0 {
        None
    } else {
        typeahead_scan(items, current, key, 1)
    }
}

/// What a typeahead search looks for after appending `key` to `buffer`: a
/// buffer repeating one character searches for the new key alone (cycling
/// among matches), anything else for the whole buffer.
#[verifier::opaque]
pub open spec fn typeahead_search(buffer: Seq<char>, key: Seq<char>) -> Seq<char> {
    if repeats_one_char(buffer + key) { key } else { buffer + key }
}

/// The part of typed text that feeds the typeahead buffer: a lone space is
/// kept, anything else is trimmed.
#[verifier::opaque]
pub open spec fn typeahead_key(text: Seq<char>) -> Seq<char> {
    if text == seq![' '] {
        text
    } else {
        trim(text)
    }
}

/// The characters of typed `text` that feed the typeahead buffer.
pub fn typeahead_key_chars(text: &str) -> (key: Vec<char>)
    ensures
        key@ == typeahead_key(text@),
{
    reveal(typeahead_key);
    let raw = chars_of(text);
    if raw.len() == 1 && raw[0] == ' ' {
        assert(raw@ =~= seq![' ']);
        raw
    } else {
        proof {
            if raw@ == seq![' '] {
                assert(raw@.len() == 1 && raw@[0] == ' ');
            }
        }
        trim_chars(raw.as_slice())
    }
}

/// Whether the typeahead session started at `last` has lapsed at `now`.
pub open spec fn typeahead_expired(last: Option<u64>, now: u64) -> bool {
    match last {
        Some(l) => elapsed(now, l) > TYPEAHEAD_RESET_AFTER,
        None => true,
    }
}

/// The instant classification recorded for a transition of a menu hosted by
/// `parent_kind`: menubar menus record `Group` for focus, hover and handoff
/// transitions; keyboard presses are `Click`; dismissals are `Dismiss`.
#[verifier::opaque]
pub open spec fn instant_for(parent_kind: MenuParentKind, reason: MenuOpenChangeReason, source: MenuOpenChangeSource) -> MenuInstantKind {
    if parent_kind == MenuParentKind::Menubar && (reason == MenuOpenChangeReason::TriggerFocus
        || reason == MenuOpenChangeReason::FocusOut || reason == MenuOpenChangeReason::TriggerHover
        || reason == MenuOpenChangeReason::ListNavigation || reason == MenuOpenChangeReason::SiblingOpen) {
        MenuInstantKind::Group
    } else if (reason == MenuOpenChangeReason::TriggerPress || reason == MenuOpenChangeReason::ItemPress)
        && source == MenuOpenChangeSource::Keyboard {
        MenuInstantKind::Click
    } else if reason == MenuOpenChangeReason::EscapeKey || reason == MenuOpenChangeReason::OutsidePress
        || reason == MenuOpenChangeReason::FocusOut || reason == MenuOpenChangeReason::Unspecified {
        MenuInstantKind::Dismiss
    } else {
        MenuInstantKind::NotInstant
    }
}

/// Classifies the instant kind of a transition (see [`instant_for`]).
pub fn instant_kind_for(parent_kind: MenuParentKind, reason: MenuOpenChangeReason, source: MenuOpenChangeSource) -> (k: MenuInstantKind)
    ensures
        k == instant_for(parent_kind, reason, source),
{
    reveal(instant_for);
    if parent_kind == MenuParentKind::Menubar && (reason == MenuOpenChangeReason::TriggerFocus
        || reason == MenuOpenChangeReason::FocusOut || reason == MenuOpenChangeReason::TriggerHover
        || reason == MenuOpenChangeReason::ListNavigation || reason == MenuOpenChangeReason::SiblingOpen) {
        return MenuInstantKind::Group;
    }
    match (reason, source) {
        (MenuOpenChangeReason::TriggerPress, MenuOpenChangeSource::Keyboard)
        | (MenuOpenChangeReason::ItemPress, MenuOpenChangeSource::Keyboard) => MenuInstantKind::Click,
        (MenuOpenChangeReason::EscapeKey, _)
        | (MenuOpenChangeReason::OutsidePress, _)
        | (MenuOpenChangeReason::FocusOut, _)
        | (MenuOpenChangeReason::Unspecified, _) => MenuInstantKind::Dismiss,
        _ => MenuInstantKind::NotInstant,
    }
}

impl<P, I, L> MenuRuntimeView<P, I, L> {
    /// State of a fresh runtime.
    pub open spec fn initial(open: bool, parent_kind: MenuParentKind) -> Self {
        MenuRuntimeView {
            open,
            parent_kind,
            context_menu_grace_deadline: None,
            last_open_reason: MenuOpenChangeReason::Unspecified,
            last_open_source: MenuOpenChangeSource::Unspecified,
            instant: MenuInstantKind::NotInstant,
            prevent_unmount_on_close: false,
            trigger: None,
            items: Seq::empty(),
            group_labels: Seq::empty(),
            highlighted_index: None,
            typeahead: Seq::empty(),
            last_typeahead_at: None,
            allow_mouse_enter: false,
            hover_enabled: true,
            stick_if_open: false,
            checkbox_checked: Map::empty(),
            radio_selected: Map::empty(),
            effective_side: None,
            effective_align: None,
            focus_popup_on_open: false,
            was_focused: false,
            trigger_was_focused: false,
            focus_out_close_requested: false,
            hover_generation: 0,
            pending_hover: None,
            submenu_links: Seq::empty(),
            open_submenu_item: None,
            child_close_generation: 0,
            pending_child_close: None,
            child_polygon_item: None,
            opened_by_current_press: false,
        }
    }

    /// Whether item `index` is highlighted (an absent index never is).
    pub open spec fn is_highlighted(self, index: Option<usize>) -> bool {
        index is Some && self.highlighted_index == index
    }

    /// Whether the popup stays mounted.
    pub open spec fn mounted(self, keep_mounted: bool) -> bool {
        self.open || keep_mounted || self.prevent_unmount_on_close
    }

    /// Whether the trigger blocks opening: a disabled trigger of a root or
    /// menubar-hosted menu.
    pub open spec fn trigger_blocks_open(self) -> bool {
        &&& self.trigger matches Some(t) && t.disabled
        &&& (self.parent_kind == MenuParentKind::NoParent || self.parent_kind == MenuParentKind::Menubar)
    }

    /// Whether a request from `current` to `next` changes anything.
    pub open spec fn open_change_accepted(self, current: bool, next: bool) -> bool {
        if next && self.trigger_blocks_open() {
            false
        } else {
            let mounted_only_close = !next && !current && self.prevent_unmount_on_close;
            current != next || mounted_only_close
        }
    }

    pub open spec fn after_sync_open(self, open: bool) -> Self {
        MenuRuntimeView {
            open,
            prevent_unmount_on_close: if open { false } else { self.prevent_unmount_on_close },
            ..self
        }
    }

    /// State after an accepted transition to `open` is committed.
    pub open spec fn after_commit_open(self, open: bool, prevent_unmount_on_close: bool, commit_open_state: bool) -> Self {
        let s = MenuRuntimeView { open: if commit_open_state { open } else { self.open }, ..self };
        if open {
            MenuRuntimeView {
                prevent_unmount_on_close: false,
                allow_mouse_enter: false,
                hover_enabled: true,
                stick_if_open: self.last_open_reason == MenuOpenChangeReason::TriggerHover,
                ..s
            }
        } else {
            MenuRuntimeView {
                context_menu_grace_deadline: None,
                stick_if_open: false,
                prevent_unmount_on_close,
                focus_popup_on_open: false,
                highlighted_index: None,
                open_submenu_item: None,
                typeahead: Seq::empty(),
                last_typeahead_at: None,
                child_close_generation: next_generation(self.child_close_generation),
                pending_child_close: None,
                child_polygon_item: None,
                ..s
            }
        }
    }

    pub open spec fn after_record_open_change(self, reason: MenuOpenChangeReason, source: MenuOpenChangeSource) -> Self {
        MenuRuntimeView {
            last_open_reason: if reason != MenuOpenChangeReason::Unspecified { reason } else { self.last_open_reason },
            last_open_source: if source != MenuOpenChangeSource::Unspecified { source } else { self.last_open_source },
            instant: instant_for(self.parent_kind, reason, source),
            ..self
        }
    }

    pub open spec fn after_move_highlight(self, direction: MenuMove, loop_focus: bool) -> Self {
        MenuRuntimeView {
            highlighted_index: moved_highlight(self.items.len(), self.highlighted_index, direction, loop_focus),
            ..self
        }
    }

    pub open spec fn after_take_opened_by_current_press(self) -> (Self, bool) {
        (MenuRuntimeView { opened_by_current_press: false, ..self }, self.opened_by_current_press)
    }

    pub open spec fn after_trigger_focus_edge(self, focused: bool) -> (Self, bool) {
        (MenuRuntimeView { trigger_was_focused: focused, ..self }, focused && !self.trigger_was_focused)
    }

    pub open spec fn after_sync_focus(self, focused: bool) -> Self {
        MenuRuntimeView {
            focus_out_close_requested: self.focus_out_close_requested || (self.was_focused && !focused && self.open),
            was_focused: focused,
            ..self
        }
    }

    pub open spec fn after_take_focus_out_close_request(self) -> (Self, bool) {
        (MenuRuntimeView { focus_out_close_requested: false, ..self }, self.focus_out_close_requested)
    }

    pub open spec fn checkbox_value(self, index: usize) -> bool {
        if self.checkbox_checked.contains_key(index) { self.checkbox_checked[index] } else { false }
    }

    pub open spec fn after_register_checkbox_default(self, index: usize, default_checked: bool) -> Self {
        if self.checkbox_checked.contains_key(index) {
            self
        } else {
            MenuRuntimeView { checkbox_checked: self.checkbox_checked.insert(index, default_checked), ..self }
        }
    }

    pub open spec fn after_commit_checkbox(self, index: usize, checked: bool) -> Self {
        MenuRuntimeView { checkbox_checked: self.checkbox_checked.insert(index, checked), ..self }
    }

    pub open spec fn radio_value(self, group_index: usize) -> Option<usize> {
        if self.radio_selected.contains_key(group_index) { self.radio_selected[group_index] } else { None }
    }

    pub open spec fn after_register_radio_default(self, group_index: usize, selected_item: Option<usize>) -> Self {
        if self.radio_selected.contains_key(group_index) {
            self
        } else {
            MenuRuntimeView { radio_selected: self.radio_selected.insert(group_index, selected_item), ..self }
        }
    }

    pub open spec fn after_commit_radio(self, group_index: usize, item_index: usize) -> Self {
        MenuRuntimeView { radio_selected: self.radio_selected.insert(group_index, Some(item_index)), ..self }
    }

    pub open spec fn after_schedule_hover(self, target: MenuHoverTarget) -> (Self, u64) {
        let generation = next_generation(self.hover_generation);
        (
            MenuRuntimeView {
                hover_generation: generation,
                pending_hover: Some(MenuPendingHover { generation, target }),
                ..self
            },
            generation,
        )
    }

    pub open spec fn after_cancel_hover(self) -> Self {
        MenuRuntimeView { hover_generation: next_generation(self.hover_generation), pending_hover: None, ..self }
    }

    pub open spec fn after_take_scheduled_hover(self, generation: u64, target: MenuHoverTarget) -> (Self, bool) {
        let matches = self.pending_hover == Some(MenuPendingHover { generation, target });
        (if matches { MenuRuntimeView { pending_hover: None, ..self } } else { self }, matches)
    }

    pub open spec fn after_schedule_child_close(self, item_index: usize) -> (Self, u64) {
        let generation = next_generation(self.child_close_generation);
        (
            MenuRuntimeView {
                child_close_generation: generation,
                pending_child_close: Some(MenuPendingChildClose { generation, item_index }),
                ..self
            },
            generation,
        )
    }

    pub open spec fn after_cancel_child_close(self) -> Self {
        MenuRuntimeView {
            child_close_generation: next_generation(self.child_close_generation),
            pending_child_close: None,
            ..self
        }
    }

    pub open spec fn after_take_scheduled_child_close(self, generation: u64, item_index: usize) -> (Self, bool) {
        let matches = self.pending_child_close == Some(MenuPendingChildClose { generation, item_index });
        (if matches { MenuRuntimeView { pending_child_close: None, ..self } } else { self }, matches)
    }

    pub open spec fn after_note_submenu_opened(self, item_index: usize) -> Self {
        MenuRuntimeView { open_submenu_item: Some(item_index), hover_enabled: false, ..self }
    }

    pub open spec fn after_note_submenu_closed(self, item_index: usize) -> Self {
        let s = if self.open_submenu_item == Some(item_index) {
            MenuRuntimeView { open_submenu_item: None, hover_enabled: true, ..self }
        } else {
            self
        };
        if self.child_polygon_item == Some(item_index) {
            MenuRuntimeView { child_polygon_item: None, ..s }
        } else {
            s
        }
    }

    /// Whether a typeahead session is in progress at `now`.
    pub open spec fn typeahead_in_progress(self, now: u64) -> bool {
        self.typeahead.len() > 0 && match self.last_typeahead_at {
            Some(l) => elapsed(now, l) <= TYPEAHEAD_RESET_AFTER,
            None => false,
        }
    }

    /// The typeahead buffer in effect at `now`: empty once the session lapsed.
    #[verifier::opaque]
    pub open spec fn typeahead_buffer(self, now: u64) -> Seq<char> {
        if typeahead_expired(self.last_typeahead_at, now) { Seq::empty() } else { self.typeahead }
    }

    /// State and outcome after feeding typed `text` at `now`.
    pub open spec fn after_typeahead(self, text: Seq<char>, now: u64) -> (Self, MenuTypeaheadOutcome) {
        let key = typeahead_key(text);
        if key.len() == 0 {
            (self, MenuTypeaheadOutcome::NoMatch)
        } else {
            let buffer = self.typeahead_buffer(now);
            let s = MenuRuntimeView { typeahead: buffer, last_typeahead_at: Some(now), ..self };
            match typeahead_target(s.items, s.highlighted_index, typeahead_search(buffer, key)) {
                Some(p) => (
                    MenuRuntimeView { highlighted_index: Some(p as usize), typeahead: buffer + key, ..s },
                    MenuTypeaheadOutcome::Moved,
                ),
                None => (s, MenuTypeaheadOutcome::NoMatch),
            }
        }
    }

    /// What reconciling the child branch with the highlight decides.
    pub open spec fn after_reconcile_child_hover(self, polygon_armed: bool) -> (Self, MenuChildHoverDirective) {
        match self.open_submenu_item {
            None => (self, MenuChildHoverDirective::NoAction),
            Some(open_item) => match self.highlighted_index {
                None => (self, MenuChildHoverDirective::NoAction),
                Some(h) => if h == open_item {
                    if self.pending_child_close is Some {
                        (self.after_cancel_child_close(), MenuChildHoverDirective::CancelClose)
                    } else {
                        (self, MenuChildHoverDirective::NoAction)
                    }
                } else if self.pending_child_close is Some || polygon_armed {
                    (self, MenuChildHoverDirective::NoAction)
                } else {
                    let close_delay = match link_position(self.submenu_links, open_item) {
                        Some(p) => self.submenu_links[p].close_delay,
                        None => 0u64,
                    };
                    let (s, generation) = self.after_schedule_child_close(open_item);
                    (s, MenuChildHoverDirective::ScheduleClose { item_index: open_item, close_delay, generation })
                },
            },
        }
    }
}

/// Per-menu runtime state. `P` is the trigger payload type, `I` the host's
/// element identifier type, and `L` the host's handle for one child submenu.
pub struct MenuRuntime<P, I, L> {
    open: bool,
    parent_kind: MenuParentKind,
    context_menu_grace_deadline: Option<u64>,
    last_open_reason: MenuOpenChangeReason,
    last_open_source: MenuOpenChangeSource,
    instant: MenuInstantKind,
    prevent_unmount_on_close: bool,
    trigger: Option<MenuTriggerMetadata<P, I>>,
    items: Vec<MenuItemMetadata>,
    group_labels: Vec<String>,
    highlighted_index: Option<usize>,
    typeahead: Vec<char>,
    last_typeahead_at: Option<u64>,
    allow_mouse_enter: bool,
    hover_enabled: bool,
    stick_if_open: bool,
    checkbox_checked: HashMap<usize, bool>,
    radio_selected: HashMap<usize, Option<usize>>,
    effective_side: Option<MenuSide>,
    effective_align: Option<MenuAlign>,
    focus_popup_on_open: bool,
    was_focused: bool,
    trigger_was_focused: bool,
    focus_out_close_requested: bool,
    hover_generation: u64,
    pending_hover: Option<MenuPendingHover>,
    submenu_links: Vec<MenuSubmenuLink<L>>,
    open_submenu_item: Option<usize>,
    child_close_generation: u64,
    pending_child_close: Option<MenuPendingChildClose>,
    child_polygon_item: Option<usize>,
    opened_by_current_press: bool,
}

impl<P, I, L> View for MenuRuntime<P, I, L> {
    type V = MenuRuntimeView<P, I, L>;

    closed spec fn view(&self) -> MenuRuntimeView<P, I, L> {
        MenuRuntimeView {
            open: self.open,
            parent_kind: self.parent_kind,
            context_menu_grace_deadline: self.context_menu_grace_deadline,
            last_open_reason: self.last_open_reason,
            last_open_source: self.last_open_source,
            instant: self.instant,
            prevent_unmount_on_close: self.prevent_unmount_on_close,
            trigger: match self.trigger {
                Some(t) => Some(t@),
                None => None,
            },
            items: self.items@.map_values(|item: MenuItemMetadata| item@),
            group_labels: self.group_labels@.map_values(|label: String| label@),
            highlighted_index: self.highlighted_index,
            typeahead: self.typeahead@,
            last_typeahead_at: self.last_typeahead_at,
            allow_mouse_enter: self.allow_mouse_enter,
            hover_enabled: self.hover_enabled,
            stick_if_open: self.stick_if_open,
            checkbox_checked: self.checkbox_checked@,
            radio_selected: self.radio_selected@,
            effective_side: self.effective_side,
            effective_align: self.effective_align,
            focus_popup_on_open: self.focus_popup_on_open,
            was_focused: self.was_focused,
            trigger_was_focused: self.trigger_was_focused,
            focus_out_close_requested: self.focus_out_close_requested,
            hover_generation: self.hover_generation,
            pending_hover: self.pending_hover,
            submenu_links: self.submenu_links@,
            open_submenu_item: self.open_submenu_item,
            child_close_generation: self.child_close_generation,
            pending_child_close: self.pending_child_close,
            child_polygon_item: self.child_polygon_item,
            opened_by_current_press: self.opened_by_current_press,
        }
    }
}

impl<P, I, L> MenuRuntime<P, I, L> {
    /// Creates runtime state with the observed initial open value and the
    /// parent kind fixed for this menu's lifetime.
    pub fn new(open: bool, parent_kind: MenuParentKind) -> (runtime: Self)
        ensures
            runtime@ == MenuRuntimeView::<P, I, L>::initial(open, parent_kind),
    {
        let runtime = MenuRuntime {
            open,
            parent_kind,
            context_menu_grace_deadline: None,
            last_open_reason: MenuOpenChangeReason::Unspecified,
            last_open_source: MenuOpenChangeSource::Unspecified,
            instant: MenuInstantKind::NotInstant,
            prevent_unmount_on_close: false,
            trigger: None,
            items: Vec::new(),
            group_labels: Vec::new(),
            highlighted_index: None,
            typeahead: Vec::new(),
            last_typeahead_at: None,
            allow_mouse_enter: false,
            hover_enabled: true,
            stick_if_open: false,
            checkbox_checked: HashMap::new(),
            radio_selected: HashMap::new(),
            effective_side: None,
            effective_align: None,
            focus_popup_on_open: false,
            was_focused: false,
            trigger_was_focused: false,
            focus_out_close_requested: false,
            hover_generation: 0,
            pending_hover: None,
            submenu_links: Vec::new(),
            open_submenu_item: None,
            child_close_generation: 0,
            pending_child_close: None,
            child_polygon_item: None,
            opened_by_current_press: false,
        };
        assert(runtime@.items =~= Seq::<MenuItemView>::empty());
        assert(runtime@.group_labels =~= Seq::<Seq<char>>::empty());
        assert(runtime@.checkbox_checked =~= Map::<usize, bool>::empty());
        assert(runtime@.radio_selected =~= Map::<usize, Option<usize>>::empty());
        runtime
    }

    /// Arms or clears the press-open marker on trigger mouse-down.
    pub fn set_opened_by_current_press(&mut self, opened: bool)
        ensures
            final(self)@ == (MenuRuntimeView { opened_by_current_press: opened, ..old(self)@ }),
    {
        self.opened_by_current_press = opened;
    }

    /// Consumes the press-open marker: true when the current click's
    /// mouse-down is the one that opened the menu.
    pub fn take_opened_by_current_press(&mut self) -> (taken: bool)
        ensures
            (final(self)@, taken) == old(self)@.after_take_opened_by_current_press(),
    {
        let taken = self.opened_by_current_press;
        self.opened_by_current_press = false;
        taken
    }

    pub fn open_value(&self) -> (r: bool)
        ensures
            r == self@.open,
    {
        self.open
    }

    pub fn parent_kind(&self) -> (r: MenuParentKind)
        ensures
            r == self@.parent_kind,
    {
        self.parent_kind
    }

    /// Records one Context Menu open gesture at `now`: arms the post-open
    /// grace window. The host re-anchors at the cursor and stores the initial
    /// cursor point beside this call.
    pub fn open_context_menu_at(&mut self, now: u64)
        requires
            now <= u64::MAX - CONTEXT_MENU_GRACE,
        ensures
            final(self)@ == (MenuRuntimeView {
                context_menu_grace_deadline: Some((now + CONTEXT_MENU_GRACE) as u64),
                ..old(self)@
            }),
    {
        self.context_menu_grace_deadline = Some(now + CONTEXT_MENU_GRACE);
    }

    /// Whether `now` falls inside the armed post-open grace window.
    pub fn context_menu_grace_active(&self, now: u64) -> (r: bool)
        ensures
            r == (self@.context_menu_grace_deadline matches Some(d) && now < d),
    {
        match self.context_menu_grace_deadline {
            Some(deadline) => now < deadline,
            None => false,
        }
    }

    /// Classifies a window mouse-up while a Context Menu tree is open.
    /// `near_initial_point` is the host's consumed proximity check: whether a
    /// recorded initial cursor point exists and the release lies within one
    /// pixel of it on both axes.
    pub fn context_menu_mouse_up(&self, near_initial_point: bool, inside_tree: bool, now: u64) -> (r: MenuContextMenuMouseUp)
        ensures
            r == (if near_initial_point {
                MenuContextMenuMouseUp::SuppressedInitialPoint
            } else if self@.context_menu_grace_deadline matches Some(d) && now < d {
                if inside_tree { MenuContextMenuMouseUp::InsideTree } else { MenuContextMenuMouseUp::InertGrace }
            } else if inside_tree {
                MenuContextMenuMouseUp::InsideTree
            } else {
                MenuContextMenuMouseUp::CloseCancelOpen
            }),
    {
        if self.context_menu_grace_active(now) {
            if near_initial_point {
                return MenuContextMenuMouseUp::SuppressedInitialPoint;
            }
            if !inside_tree {
                return MenuContextMenuMouseUp::InertGrace;
            }
            return MenuContextMenuMouseUp::InsideTree;
        }
        if near_initial_point {
            return MenuContextMenuMouseUp::SuppressedInitialPoint;
        }
        if inside_tree {
            MenuContextMenuMouseUp::InsideTree
        } else {
            MenuContextMenuMouseUp::CloseCancelOpen
        }
    }

    /// Clears the per-gesture Context Menu facts so a later open re-arms
    /// deterministically.
    pub fn clear_context_menu_gesture(&mut self)
        ensures
            final(self)@ == (MenuRuntimeView { context_menu_grace_deadline: None, ..old(self)@ }),
    {
        self.context_menu_grace_deadline = None;
    }

    /// Whether the popup stays mounted: open, kept mounted by the part, or
    /// held through a close by `prevent_unmount_on_close`.
    pub fn mounted_value(&self, keep_mounted: bool) -> (r: bool)
        ensures
            r == self@.mounted(keep_mounted),
    {
        self.open || keep_mounted || self.prevent_unmount_on_close
    }

    pub fn last_open_reason(&self) -> (r: MenuOpenChangeReason)
        ensures
            r == self@.last_open_reason,
    {
        self.last_open_reason
    }

    pub fn instant_kind(&self) -> (r: MenuInstantKind)
        ensures
            r == self@.instant,
    {
        self.instant
    }

    /// Reconciles the runtime with an externally controlled open value.
    pub fn sync_open_from_context(&mut self, open: bool)
        ensures
            final(self)@ == old(self)@.after_sync_open(open),
    {
        self.open = open;
        if open {
            self.prevent_unmount_on_close = false;
        }
    }

    /// Commits an accepted open-state transition. Closing clears the
    /// highlight, typeahead, open branch, pending child close, child polygon
    /// target and context-menu gesture; the host also disarms its polygon.
    pub fn commit_open(&mut self, open: bool, prevent_unmount_on_close: bool, commit_open_state: bool)
        ensures
            final(self)@ == old(self)@.after_commit_open(open, prevent_unmount_on_close, commit_open_state),
    {
        if commit_open_state {
            self.open = open;
        }
        if open {
            self.prevent_unmount_on_close = false;
            self.allow_mouse_enter = false;
            self.hover_enabled = true;
            self.stick_if_open = self.last_open_reason == MenuOpenChangeReason::TriggerHover;
        } else {
            self.context_menu_grace_deadline = None;
            self.stick_if_open = false;
            self.prevent_unmount_on_close = prevent_unmount_on_close;
            self.focus_popup_on_open = false;
            self.highlighted_index = None;
            self.open_submenu_item = None;
            self.typeahead = Vec::new();
            self.last_typeahead_at = None;
            self.child_close_generation = bump_generation(self.child_close_generation);
            self.pending_child_close = None;
            self.child_polygon_item = None;
            assert(self@.typeahead =~= Seq::<char>::empty());
        }
    }

    /// Records the reason and source of an accepted transition and classifies
    /// its instant kind.
    pub fn record_open_change(&mut self, reason: MenuOpenChangeReason, source: MenuOpenChangeSource)
        ensures
            final(self)@ == old(self)@.after_record_open_change(reason, source),
    {
        let instant = instant_kind_for(self.parent_kind, reason, source);
        let last_reason = if reason != MenuOpenChangeReason::Unspecified {
            reason
        } else {
            self.last_open_reason
        };
        let last_source = if source != MenuOpenChangeSource::Unspecified {
            source
        } else {
            self.last_open_source
        };
        self.last_open_reason = last_reason;
        self.last_open_source = last_source;
        self.instant = instant;
    }

    /// Whether the latest recorded open came from hovering the trigger.
    pub fn opened_by_hover(&self) -> (r: bool)
        ensures
            r == (self@.last_open_reason == MenuOpenChangeReason::TriggerHover),
    {
        self.last_open_reason == MenuOpenChangeReason::TriggerHover
    }

    /// Asks for focus to move into the popup once it opens: only press or
    /// list-navigation opens from a pointer or the keyboard do.
    pub fn request_popup_focus_on_open(&mut self, reason: MenuOpenChangeReason, source: MenuOpenChangeSource)
        ensures
            final(self)@ == (MenuRuntimeView {
                focus_popup_on_open: (reason == MenuOpenChangeReason::TriggerPress || reason
                    == MenuOpenChangeReason::ListNavigation) && (source == MenuOpenChangeSource::Pointer
                    || source == MenuOpenChangeSource::Keyboard),
                ..old(self)@
            }),
    {
        self.focus_popup_on_open = (reason == MenuOpenChangeReason::TriggerPress || reason
            == MenuOpenChangeReason::ListNavigation) && (source == MenuOpenChangeSource::Pointer || source
            == MenuOpenChangeSource::Keyboard);
    }

    /// Consumes a pending popup-focus request: true (and cleared) when focus
    /// should move into the open popup now; the host focuses its handle.
    pub fn take_popup_focus_on_open(&mut self) -> (r: bool)
        ensures
            r == (old(self)@.focus_popup_on_open && old(self)@.open),
            final(self)@ == (MenuRuntimeView {
                focus_popup_on_open: old(self)@.focus_popup_on_open && !r,
                ..old(self)@
            }),
    {
        if !self.focus_popup_on_open || !self.open {
            return false;
        }
        self.focus_popup_on_open = false;
        true
    }

    /// Tracks focus containment; losing focus while open requests a
    /// focus-out close.
    pub fn sync_focus(&mut self, focused: bool)
        ensures
            final(self)@ == old(self)@.after_sync_focus(focused),
    {
        if self.was_focused && !focused && self.open {
            self.focus_out_close_requested = true;
        }
        self.was_focused = focused;
    }

    /// Records the trigger's focus level and reports its rising edge.
    pub fn trigger_focus_edge(&mut self, focused: bool) -> (rising: bool)
        ensures
            (final(self)@, rising) == old(self)@.after_trigger_focus_edge(focused),
    {
        let rising = focused && !self.trigger_was_focused;
        self.trigger_was_focused = focused;
        rising
    }

    /// Consumes a pending focus-out close request.
    pub fn take_focus_out_close_request(&mut self) -> (requested: bool)
        ensures
            (final(self)@, requested) == old(self)@.after_take_focus_out_close_request(),
    {
        let requested = self.focus_out_close_requested;
        self.focus_out_close_requested = false;
        requested
    }


    /// The payload of the current trigger, cloned.
    pub fn active_payload(&self) -> (r: Option<P>)
        where P: Clone,
        ensures
            match self@.trigger {
                Some(t) => match t.payload {
                    Some(p) => r matches Some(q) && cloned(p, q),
                    None => r is None,
                },
                None => r is None,
            },
    {
        match &self.trigger {
            Some(trigger) => match trigger.payload() {
                Some(p) => Some(p.clone()),
                None => None,
            },
            None => None,
        }
    }

    /// Replaces the walked trigger metadata (the host keeps the trigger's
    /// measured bounds across replacements).
    pub fn sync_trigger(&mut self, trigger: Option<MenuTriggerMetadata<P, I>>)
        ensures
            final(self)@ == (MenuRuntimeView {
                trigger: match trigger {
                    Some(t) => Some(t@),
                    None => None,
                },
                ..old(self)@
            }),
    {
        self.trigger = trigger;
    }

    /// Replaces the walked item metadata, clamping the highlight to the new
    /// item count: a highlight past the last item moves onto the last item,
    /// or is cleared when there are no items.
    pub fn sync_items(&mut self, items: Vec<MenuItemMetadata>)
        ensures
            final(self)@ == (MenuRuntimeView {
                items: items@.map_values(|item: MenuItemMetadata| item@),
                highlighted_index: match old(self)@.highlighted_index {
                    Some(h) => if h < items.len() {
                        Some(h)
                    } else if items.len() > 0 {
                        Some((items.len() - 1) as usize)
                    } else {
                        None
                    },
                    None => None,
                },
                ..old(self)@
            }),
    {
        self.items = items;
        if let Some(highlighted) = self.highlighted_index {
            let len = self.items.len();
            if highlighted >= len {
                self.highlighted_index = if len > 0 {
                    Some(len - 1)
                } else {
                    None
                };
            }
        }
    }

    /// The number of registered items.
    pub fn item_count(&self) -> (r: usize)
        ensures
            r == self@.items.len(),
    {
        self.items.len()
    }

    /// Replaces the walked group labels.
    pub fn sync_group_labels(&mut self, labels: Vec<String>)
        ensures
            final(self)@ == (MenuRuntimeView {
                group_labels: labels@.map_values(|label: String| label@),
                ..old(self)@
            }),
    {
        self.group_labels = labels;
    }

    pub fn group_labels(&self) -> (r: &[String])
        ensures
            r@.map_values(|label: String| label@) == self@.group_labels,
    {
        self.group_labels.as_slice()
    }

    /// Registers an uncontrolled checkbox item's default checked value once.
    pub fn register_checkbox_default(&mut self, index: usize, default_checked: bool)
        ensures
            final(self)@ == old(self)@.after_register_checkbox_default(index, default_checked),
    {
        broadcast use vstd::std_specs::hash::group_hash_axioms;
        if !self.checkbox_checked.contains_key(&index) {
            self.checkbox_checked.insert(index, default_checked);
        }
    }

    /// The uncontrolled checked value of a checkbox item (false when never
    /// registered).
    pub fn checkbox_checked(&self, index: usize) -> (r: bool)
        ensures
            r == self@.checkbox_value(index),
    {
        broadcast use vstd::std_specs::hash::group_hash_axioms;
        match self.checkbox_checked.get(&index) {
            Some(v) => *v,
            None => false,
        }
    }

    /// Commits an accepted uncontrolled checkbox toggle.
    pub fn commit_checkbox(&mut self, index: usize, checked: bool)
        ensures
            final(self)@ == old(self)@.after_commit_checkbox(index, checked),
    {
        broadcast use vstd::std_specs::hash::group_hash_axioms;
        self.checkbox_checked.insert(index, checked);
    }

    /// Registers an uncontrolled radio group's default selection once.
    pub fn register_radio_default(&mut self, group_index: usize, selected_item: Option<usize>)
        ensures
            final(self)@ == old(self)@.after_register_radio_default(group_index, selected_item),
    {
        broadcast use vstd::std_specs::hash::group_hash_axioms;
        if !self.radio_selected.contains_key(&group_index) {
            self.radio_selected.insert(group_index, selected_item);
        }
    }

    /// The uncontrolled selected item of a radio group (none when never
    /// registered).
    pub fn radio_selected(&self, group_index: usize) -> (r: Option<usize>)
        ensures
            r == self@.radio_value(group_index),
    {
        broadcast use vstd::std_specs::hash::group_hash_axioms;
        match self.radio_selected.get(&group_index) {
            Some(v) => *v,
            None => None,
        }
    }

    /// Commits an accepted uncontrolled radio selection.
    pub fn commit_radio(&mut self, group_index: usize, item_index: usize)
        ensures
            final(self)@ == old(self)@.after_commit_radio(group_index, item_index),
    {
        broadcast use vstd::std_specs::hash::group_hash_axioms;
        self.radio_selected.insert(group_index, Some(item_index));
    }

    /// The checked value a checkbox item toggles to: the opposite of its
    /// controlled value when given, else of the stored one.
    pub fn checkbox_toggle_target(&self, index: usize, controlled: Option<bool>) -> (next: bool)
        ensures
            next == !match controlled {
                Some(c) => c,
                None => self@.checkbox_value(index),
            },
    {
        match controlled {
            Some(c) => !c,
            None => !self.checkbox_checked(index),
        }
    }

    /// Finishes a checkbox toggle after its change callback ran: the new
    /// value is stored unless the callback canceled it or the item is
    /// controlled. Reports whether it was stored.
    pub fn finish_checkbox_toggle(&mut self, index: usize, next: bool, canceled: bool, controlled: bool) -> (committed: bool)
        ensures
            committed == (!canceled && !controlled),
            final(self)@ == (if committed { old(self)@.after_commit_checkbox(index, next) } else { old(self)@ }),
    {
        if canceled || controlled {
            return false;
        }
        self.commit_checkbox(index, next);
        true
    }

    /// Whether a radio item is checked: its controlled fact when the group is
    /// controlled, else whether the group's stored selection is this item.
    pub fn radio_item_checked(&self, group_index: usize, item_index: usize, controlled: Option<bool>) -> (checked: bool)
        ensures
            checked == match controlled {
                Some(c) => c,
                None => self@.radio_value(group_index) == Some(item_index),
            },
    {
        match controlled {
            Some(c) => c,
            None => self.radio_selected(group_index) == Some(item_index),
        }
    }

    /// Finishes a radio selection after its change callback ran: the item
    /// becomes the group's selection unless the callback canceled it or the
    /// group is controlled. Reports whether it was stored.
    pub fn finish_radio_selection(&mut self, group_index: usize, item_index: usize, canceled: bool, controlled: bool) -> (committed: bool)
        ensures
            committed == (!canceled && !controlled),
            final(self)@ == (if committed { old(self)@.after_commit_radio(group_index, item_index) } else { old(self)@ }),
    {
        if canceled || controlled {
            return false;
        }
        self.commit_radio(group_index, item_index);
        true
    }

    /// Requests an open-state transition from `current` to `next`. A disabled
    /// trigger blocks opening a root or menubar-hosted menu; otherwise a
    /// redundant request changes nothing unless it is a close of a popup that
    /// is only still mounted. The outcome carries clones of the trigger's
    /// identifier and payload (none when opening was blocked).
    pub fn request_open_change(&self, current: bool, next: bool) -> (o: MenuOpenChangeOutcome<P, I>)
        where P: Clone, I: Clone,
        ensures
            o@.changed == self@.open_change_accepted(current, next),
            o@.open == (if o@.changed { next } else { current }),
            (next && self@.trigger_blocks_open()) ==> o@.trigger_id is None && o@.payload is None,
            !(next && self@.trigger_blocks_open()) ==> match self@.trigger {
                Some(t) => (o@.trigger_id matches Some(id) && cloned(t.id, id)) && match t.payload {
                    Some(p) => o@.payload matches Some(q) && cloned(p, q),
                    None => o@.payload is None,
                },
                None => o@.trigger_id is None && o@.payload is None,
            },
    {
        let trigger_disabled = match &self.trigger {
            Some(trigger) => trigger.disabled(),
            None => false,
        };
        if next && trigger_disabled && (self.parent_kind == MenuParentKind::NoParent || self.parent_kind
            == MenuParentKind::Menubar) {
            return MenuOpenChangeOutcome::new(false, current, None, None);
        }
        let trigger_id = match &self.trigger {
            Some(trigger) => Some(trigger.id().clone()),
            None => None,
        };
        let payload = self.active_payload();
        let mounted_only_close = !next && !current && self.prevent_unmount_on_close;
        if current == next && !mounted_only_close {
            return MenuOpenChangeOutcome::new(false, current, trigger_id, payload);
        }
        MenuOpenChangeOutcome::new(true, next, trigger_id, payload)
    }


    /// Moves the highlight through the registered items (disabled items
    /// included), wrapping or clamping at the ends per `loop_focus`. Nothing
    /// happens without items. The host scrolls the new highlight into view.
    pub fn move_highlight(&mut self, direction: MenuMove, loop_focus: bool)
        ensures
            final(self)@ == old(self)@.after_move_highlight(direction, loop_focus),
    {
        let next = next_highlight(self.items.len(), self.highlighted_index, direction, loop_focus);
        self.highlighted_index = next;
    }

    /// Highlights an item from pointer hover; only after the pointer really
    /// moved inside the popup since it opened. Reports whether it changed.
    pub fn highlight_item_from_pointer(&mut self, index: usize) -> (changed: bool)
        ensures
            changed == (old(self)@.allow_mouse_enter && old(self)@.highlighted_index != Some(index)),
            final(self)@ == (if changed {
                MenuRuntimeView { highlighted_index: Some(index), ..old(self)@ }
            } else {
                old(self)@
            }),
    {
        if !self.allow_mouse_enter {
            return false;
        }
        if self.highlighted_index == Some(index) {
            return false;
        }
        self.highlighted_index = Some(index);
        true
    }

    /// Records that the pointer actually moved inside the popup since open.
    pub fn note_pointer_moved(&mut self)
        ensures
            final(self)@ == (MenuRuntimeView { allow_mouse_enter: true, ..old(self)@ }),
    {
        self.allow_mouse_enter = true;
    }

    pub fn allow_mouse_enter(&self) -> (r: bool)
        ensures
            r == self@.allow_mouse_enter,
    {
        self.allow_mouse_enter
    }

    /// Clears the highlight (pointer leaving the item region).
    pub fn clear_highlight(&mut self)
        ensures
            final(self)@ == (MenuRuntimeView { highlighted_index: None, ..old(self)@ }),
    {
        self.highlighted_index = None;
    }

    pub fn highlighted_index(&self) -> (r: Option<usize>)
        ensures
            r == self@.highlighted_index,
    {
        self.highlighted_index
    }

    /// The first registered item with index `index`.
    fn item(&self, index: usize) -> (r: Option<&MenuItemMetadata>)
        ensures
            match item_lookup(self@.items, index) {
                Some(v) => r matches Some(item) && item@ == v,
                None => r is None,
            },
    {
        let mut i: usize = 0;
        assert(self@.items.subrange(0, self@.items.len() as int) =~= self@.items);
        while i < self.items.len()
            invariant
                i <= self.items.len(),
                self@.items.len() == self.items.len(),
                item_lookup(self@.items, index) == item_lookup(self@.items.subrange(i as int, self@.items.len() as int), index),
                self@.items == self.items@.map_values(|item: MenuItemMetadata| item@),
            decreases self.items.len() - i,
        {
            let ghost rest = self@.items.subrange(i as int, self@.items.len() as int);
            assert(rest[0] == self.items@[i as int]@);
            if self.items[i].index() == index {
                return Some(&self.items[i]);
            }
            assert(rest.drop_first() =~= self@.items.subrange(i + 1, self@.items.len() as int));
            i = i + 1;
        }
        None
    }

    /// Activation facts of the highlighted item: its index, kind, whether it
    /// is disabled, and whether activating it closes the menu tree.
    pub fn highlighted_activation(&self) -> (r: Option<(usize, MenuItemKind, bool, bool)>)
        ensures
            r == match self@.highlighted_index {
                Some(index) => match item_lookup(self@.items, index) {
                    Some(item) => Some((index, item.kind, item.disabled, item.close_on_click)),
                    None => None,
                },
                None => None,
            },
    {
        let index = match self.highlighted_index {
            Some(index) => index,
            None => return None,
        };
        match self.item(index) {
            Some(item) => Some((index, item.kind(), item.disabled(), item.close_on_click())),
            None => None,
        }
    }

    /// Activation facts of one item (pointer activation): kind, disabled,
    /// and whether activating it closes the menu tree.
    pub fn item_activation(&self, index: usize) -> (r: Option<(MenuItemKind, bool, bool)>)
        ensures
            r == match item_lookup(self@.items, index) {
                Some(item) => Some((item.kind, item.disabled, item.close_on_click)),
                None => None,
            },
    {
        match self.item(index) {
            Some(item) => Some((item.kind(), item.disabled(), item.close_on_click())),
            None => None,
        }
    }


    /// Moves the highlight to the first enabled item after the current one
    /// (wrapping) whose lower-cased label starts with the lower-cased
    /// `search` (leading white space ignored). Reports whether it moved.
    fn highlight_by_typeahead(&mut self, search: &[char]) -> (found: bool)
        ensures
            match typeahead_target(old(self)@.items, old(self)@.highlighted_index, search@) {
                Some(p) => found && final(self)@ == (MenuRuntimeView {
                    highlighted_index: Some(p as usize),
                    ..old(self)@
                }),
                None => !found && final(self)@ == old(self)@,
            },
    {
        reveal(typeahead_target);
        let trimmed = trim_start_chars(search);
        let key = lowercase_chars(trimmed.as_slice());
        if key.len() == 0 {
            return false;
        }
        let len = self.items.len();
        if len == 0 {
            return false;
        }
        let current = self.highlighted_index;
        let ghost items = self@.items;
        let mut k: usize = 0;
        while k < len
            invariant
                len == self.items.len(),
                len > 0,
                items == self@.items,
                items == self.items@.map_values(|item: MenuItemMetadata| item@),
                current == self@.highlighted_index,
                self@ == old(self)@,
                key@ == unicode_lowercase(trim_start(search@)),
                k <= len,
                typeahead_target(items, current, search@) == typeahead_scan(items, current, key@, (k + 1) as nat),
            decreases len - k,
        {
            let offset = k + 1;
            let position = match current {
                Some(c) => {
                    let a = c % len;
                    let b = offset % len;
                    if a >= len - b {
                        a - (len - b)
                    } else {
                        a + b
                    }
                },
                None => k,
            };
            proof {
                if let Some(c) = current {
                    vstd::arithmetic::div_mod::lemma_add_mod_noop(c as int, offset as int, len as int);
                    let a = c % len;
                    let b = offset % len;
                    if a >= len - b {
                        vstd::arithmetic::div_mod::lemma_fundamental_div_mod_converse(a + b, len as int, 1, a + b - len);
                    } else {
                        vstd::arithmetic::div_mod::lemma_small_mod((a + b) as nat, len as nat);
                    }
                }
                assert(position == scan_position(len as nat, current, offset as nat));
                assert(items[position as int] == self.items@[position as int]@);
            }
            let item = &self.items[position];
            if !item.disabled() {
                match item.label() {
                    Some(label) => {
                        let label_chars = chars_of(label.as_str());
                        let lower = lowercase_chars(label_chars.as_slice());
                        if is_prefix_chars(key.as_slice(), lower.as_slice()) {
                            self.highlighted_index = Some(position);
                            return true;
                        }
                    },
                    None => {},
                }
            }
            k = k + 1;
        }
        false
    }

    /// Feeds typed text to the typeahead buffer at `now` and moves the
    /// highlight to the next enabled item whose label matches (matching
    /// never activates). A lone space is kept, other text is trimmed, and
    /// empty text is ignored. The buffer starts over after
    /// `TYPEAHEAD_RESET_AFTER` of idleness; a buffer repeating one character
    /// searches for that character alone, cycling among matches.
    #[verifier::rlimit(100)]
    pub fn apply_typeahead(&mut self, text: &str, now: u64) -> (outcome: MenuTypeaheadOutcome)
        ensures
            (final(self)@, outcome) == old(self)@.after_typeahead(text@, now),
    {
        let key = typeahead_key_chars(text);
        if key.len() == 0 {
            return MenuTypeaheadOutcome::NoMatch;
        }
        let ghost s0 = old(self)@;
        let expired = match self.last_typeahead_at {
            Some(last) => elapsed_between(now, last) > TYPEAHEAD_RESET_AFTER,
            None => true,
        };
        if expired {
            self.typeahead = Vec::new();
            assert(self@.typeahead =~= Seq::<char>::empty());
        }
        self.last_typeahead_at = Some(now);
        let ghost buffer = s0.typeahead_buffer(now);
        assert(self@.typeahead == buffer) by {
            reveal(MenuRuntimeView::typeahead_buffer);
        }
        assert(self@ == (MenuRuntimeView { typeahead: buffer, last_typeahead_at: Some(now), ..s0 }));
        let next_text = concat_chars(self.typeahead.as_slice(), key.as_slice());
        let repeated = repeats_one_char_chars(next_text.as_slice());
        let search = if repeated {
            key.as_slice()
        } else {
            next_text.as_slice()
        };
        assert(search@ == typeahead_search(buffer, key@)) by {
            reveal(typeahead_search);
        }
        let found = self.highlight_by_typeahead(search);
        if !found {
            return MenuTypeaheadOutcome::NoMatch;
        }
        self.typeahead = next_text;
        MenuTypeaheadOutcome::Moved
    }

    /// Whether a typeahead session is in progress at `now` (Space then feeds
    /// the search instead of activating).
    pub fn typeahead_active(&self, now: u64) -> (r: bool)
        ensures
            r == self@.typeahead_in_progress(now),
    {
        self.typeahead.len() > 0 && match self.last_typeahead_at {
            Some(last) => elapsed_between(now, last) <= TYPEAHEAD_RESET_AFTER,
            None => false,
        }
    }


    /// Schedules a delayed hover-open or hover-close of the trigger and
    /// returns the generation its timer must present.
    pub fn schedule_hover(&mut self, target: MenuHoverTarget) -> (generation: u64)
        ensures
            (final(self)@, generation) == old(self)@.after_schedule_hover(target),
    {
        self.hover_generation = bump_generation(self.hover_generation);
        self.pending_hover = Some(MenuPendingHover { generation: self.hover_generation, target });
        self.hover_generation
    }

    /// Clears any delayed hover transition and invalidates pending timers.
    pub fn cancel_hover(&mut self)
        ensures
            final(self)@ == old(self)@.after_cancel_hover(),
    {
        self.hover_generation = bump_generation(self.hover_generation);
        self.pending_hover = None;
    }

    /// Consumes a pending delayed hover transition if it is still current.
    pub fn take_scheduled_hover(&mut self, generation: u64, target: MenuHoverTarget) -> (taken: bool)
        ensures
            (final(self)@, taken) == old(self)@.after_take_scheduled_hover(generation, target),
    {
        let matches = match self.pending_hover {
            Some(pending) => pending.generation == generation && pending.target == target,
            None => false,
        };
        if matches {
            self.pending_hover = None;
        }
        matches
    }

    /// Position of the first link anchored at `item_index`.
    fn link_index(&self, item_index: usize) -> (r: Option<usize>)
        ensures
            match link_position(self@.submenu_links, item_index) {
                Some(p) => r == Some(p as usize),
                None => r is None,
            },
            r matches Some(i) ==> i < self.submenu_links.len(),
    {
        proof {
            lemma_link_position_bounds(self@.submenu_links, item_index);
        }
        let mut i: usize = 0;
        let ghost links = self@.submenu_links;
        while i < self.submenu_links.len()
            invariant
                i <= self.submenu_links.len(),
                links == self.submenu_links@,
                forall|k: int| 0 <= k < i ==> links[k].item_index != item_index,
            decreases self.submenu_links.len() - i,
        {
            if self.submenu_links[i].item_index == item_index {
                proof {
                    lemma_link_position_first(links, item_index, i as int);
                }
                return Some(i);
            }
            i = i + 1;
        }
        proof {
            lemma_link_position_none(links, item_index);
        }
        None
    }

    /// Registers or refreshes the tree link for one child submenu: it
    /// replaces the link anchored at the same item, or is appended.
    pub fn register_submenu_link(&mut self, link: MenuSubmenuLink<L>)
        ensures
            final(self)@ == (MenuRuntimeView {
                submenu_links: links_after_register(old(self)@.submenu_links, link),
                ..old(self)@
            }),
    {
        proof {
            lemma_link_position_bounds(self@.submenu_links, link.item_index);
        }
        match self.link_index(link.item_index) {
            Some(i) => {
                self.submenu_links.set(i, link);
            },
            None => {
                self.submenu_links.push(link);
            },
        }
    }

    /// Records that the child submenu anchored at an item opened; hover-driven
    /// closing of this menu is disabled while a child branch is open.
    pub fn note_submenu_opened(&mut self, item_index: usize)
        ensures
            final(self)@ == old(self)@.after_note_submenu_opened(item_index),
    {
        self.open_submenu_item = Some(item_index);
        self.hover_enabled = false;
    }

    /// Records that the child submenu anchored at an item closed. Returns
    /// whether the safe polygon targeted that branch and was disarmed (the
    /// host then disarms its polygon too).
    pub fn note_submenu_closed(&mut self, item_index: usize) -> (polygon_disarmed: bool)
        ensures
            final(self)@ == old(self)@.after_note_submenu_closed(item_index),
            polygon_disarmed == (old(self)@.child_polygon_item == Some(item_index)),
    {
        let closes_open_branch = self.open_submenu_item == Some(item_index);
        let disarms = self.child_polygon_item == Some(item_index);
        if closes_open_branch {
            self.open_submenu_item = None;
            self.hover_enabled = true;
        }
        if disarms {
            self.child_polygon_item = None;
        }
        disarms
    }

    pub fn open_submenu_item(&self) -> (r: Option<usize>)
        ensures
            r == self@.open_submenu_item,
    {
        self.open_submenu_item
    }

    pub fn hover_enabled(&self) -> (r: bool)
        ensures
            r == self@.hover_enabled,
    {
        self.hover_enabled
    }

    /// Whether a hover-opened menu sticks open (patient click).
    pub fn stick_if_open(&self) -> (r: bool)
        ensures
            r == self@.stick_if_open,
    {
        self.stick_if_open
    }

    /// The link anchored at `item_index`, if registered.
    pub fn submenu_link(&self, item_index: usize) -> (r: Option<&MenuSubmenuLink<L>>)
        ensures
            match link_position(self@.submenu_links, item_index) {
                Some(p) => r matches Some(l) && *l == self@.submenu_links[p],
                None => r is None,
            },
    {
        proof {
            lemma_link_position_bounds(self@.submenu_links, item_index);
        }
        match self.link_index(item_index) {
            Some(i) => Some(&self.submenu_links[i]),
            None => None,
        }
    }

    /// The link of the currently open child branch, if any.
    pub fn open_child_link(&self) -> (r: Option<&MenuSubmenuLink<L>>)
        ensures
            match self@.open_submenu_item {
                Some(item) => match link_position(self@.submenu_links, item) {
                    Some(p) => r matches Some(l) && *l == self@.submenu_links[p],
                    None => r is None,
                },
                None => r is None,
            },
    {
        match self.open_submenu_item {
            Some(item_index) => self.submenu_link(item_index),
            None => None,
        }
    }

    /// Every registered link not anchored at `item_index`, in order (opening
    /// one branch closes the others with `SiblingOpen`).
    pub fn sibling_links_except(&self, item_index: usize) -> (r: Vec<&MenuSubmenuLink<L>>)
        ensures
            r@.map_values(|l: &MenuSubmenuLink<L>| *l) == self@.submenu_links.filter(
                |l: MenuSubmenuLink<L>| l.item_index != item_index,
            ),
    {
        let mut r: Vec<&MenuSubmenuLink<L>> = Vec::new();
        let ghost links = self@.submenu_links;
        let ghost pred = |l: MenuSubmenuLink<L>| l.item_index != item_index;
        let mut i: usize = 0;
        assert(links.take(0).filter(pred) =~= Seq::<MenuSubmenuLink<L>>::empty()) by {
            reveal(Seq::filter);
        }
        while i < self.submenu_links.len()
            invariant
                i <= self.submenu_links.len(),
                links == self.submenu_links@,
                pred == (|l: MenuSubmenuLink<L>| l.item_index != item_index),
                r@.map_values(|l: &MenuSubmenuLink<L>| *l) == links.take(i as int).filter(pred),
            decreases self.submenu_links.len() - i,
        {
            let link = &self.submenu_links[i];
            let ghost before = r@;
            proof {
                reveal(Seq::filter);
                let t = links.take(i as int + 1);
                assert(t.drop_last() =~= links.take(i as int));
                assert(t.last() == links[i as int]);
                assert(pred(links[i as int]) == (link.item_index != item_index));
                assert(t.filter(pred) == (if pred(t.last()) {
                    t.drop_last().filter(pred).push(t.last())
                } else {
                    t.drop_last().filter(pred)
                }));
            }
            if link.item_index != item_index {
                r.push(link);
                assert(r@.map_values(|l: &MenuSubmenuLink<L>| *l) =~= before.map_values(
                    |l: &MenuSubmenuLink<L>| *l,
                ).push(*link));
            }
            i = i + 1;
        }
        assert(links.take(links.len() as int) =~= links);
        r
    }

    /// Every registered child link (parent-close cascade).
    pub fn all_submenu_links(&self) -> (r: &[MenuSubmenuLink<L>])
        ensures
            r@ == self@.submenu_links,
    {
        self.submenu_links.as_slice()
    }

    /// Schedules the open child branch to close after its close delay and
    /// returns the generation its timer must present.
    pub fn schedule_child_close(&mut self, item_index: usize) -> (generation: u64)
        ensures
            (final(self)@, generation) == old(self)@.after_schedule_child_close(item_index),
    {
        self.child_close_generation = bump_generation(self.child_close_generation);
        self.pending_child_close = Some(MenuPendingChildClose { generation: self.child_close_generation, item_index });
        self.child_close_generation
    }

    /// Consumes a pending delayed child close if it is still current.
    pub fn take_scheduled_child_close(&mut self, generation: u64, item_index: usize) -> (taken: bool)
        ensures
            (final(self)@, taken) == old(self)@.after_take_scheduled_child_close(generation, item_index),
    {
        let matches = match self.pending_child_close {
            Some(pending) => pending.generation == generation && pending.item_index == item_index,
            None => false,
        };
        if matches {
            self.pending_child_close = None;
        }
        matches
    }

    /// Reconciles the pending delayed child close with the current
    /// highlight: highlighting another item schedules the open branch to
    /// close after its close delay (unless a close is already pending or the
    /// host's safe polygon is armed); re-highlighting the branch's trigger
    /// cancels a pending close.
    pub fn reconcile_child_hover(&mut self, polygon_armed: bool) -> (directive: MenuChildHoverDirective)
        ensures
            (final(self)@, directive) == old(self)@.after_reconcile_child_hover(polygon_armed),
    {
        let open_item = match self.open_submenu_item {
            Some(item) => item,
            None => return MenuChildHoverDirective::NoAction,
        };
        match self.highlighted_index {
            Some(highlighted) => {
                if highlighted == open_item {
                    if self.pending_child_close.is_some() {
                        self.cancel_child_close();
                        return MenuChildHoverDirective::CancelClose;
                    }
                    return MenuChildHoverDirective::NoAction;
                }
                if self.pending_child_close.is_some() || polygon_armed {
                    return MenuChildHoverDirective::NoAction;
                }
                let close_delay = match self.submenu_link(open_item) {
                    Some(link) => link.close_delay(),
                    None => 0,
                };
                let generation = self.schedule_child_close(open_item);
                MenuChildHoverDirective::ScheduleClose { item_index: open_item, close_delay, generation }
            },
            None => MenuChildHoverDirective::NoAction,
        }
    }

    /// The item of a pending delayed child close.
    pub fn pending_child_close_item(&self) -> (r: Option<usize>)
        ensures
            r == match self@.pending_child_close {
                Some(p) => Some(p.item_index),
                None => None,
            },
    {
        match self.pending_child_close {
            Some(pending) => Some(pending.item_index),
            None => None,
        }
    }

    /// Targets the safe polygon at the branch anchored at `item_index` when
    /// the pointer leaves that submenu trigger (the host arms the geometry).
    pub fn arm_child_polygon(&mut self, item_index: usize)
        ensures
            final(self)@ == (MenuRuntimeView { child_polygon_item: Some(item_index), ..old(self)@ }),
    {
        self.child_polygon_item = Some(item_index);
    }

    /// The branch the safe polygon targets, if any.
    pub fn child_polygon_item(&self) -> (r: Option<usize>)
        ensures
            r == self@.child_polygon_item,
    {
        self.child_polygon_item
    }

    /// Settles the safe polygon after the host evaluated the pointer against
    /// it: landing on the child popup or back on its trigger forgets the
    /// target. Returns the targeted branch (none when nothing was targeted).
    pub fn settle_child_polygon(&mut self, landed: bool) -> (r: Option<usize>)
        ensures
            r == old(self)@.child_polygon_item,
            final(self)@ == (MenuRuntimeView {
                child_polygon_item: if landed { None } else { old(self)@.child_polygon_item },
                ..old(self)@
            }),
    {
        let item = self.child_polygon_item;
        if landed {
            self.child_polygon_item = None;
        }
        item
    }

    /// Acts on the safe polygon's verdict for the branch at `item_index`:
    /// inside, the branch closes after a short rest; outside, pending closes
    /// are cancelled, the polygon target is forgotten and the branch closes
    /// now; landing on the child popup or its trigger cancels a pending
    /// close.
    pub fn apply_polygon_verdict(&mut self, item_index: usize, verdict: MenuPolygonVerdict) -> (d: MenuPolygonDirective)
        ensures
            match verdict {
                MenuPolygonVerdict::Inside => {
                    let (s, generation) = old(self)@.after_schedule_child_close(item_index);
                    final(self)@ == s && d == (MenuPolygonDirective::ScheduleClose {
                        generation,
                        delay: POLYGON_CLOSE_DELAY,
                    })
                },
                MenuPolygonVerdict::Outside => final(self)@ == (MenuRuntimeView {
                    child_polygon_item: None,
                    ..old(self)@.after_cancel_child_close()
                }) && d == MenuPolygonDirective::CloseBranch,
                _ => final(self)@ == old(self)@.after_cancel_child_close() && d == MenuPolygonDirective::Settled,
            },
    {
        match verdict {
            MenuPolygonVerdict::Inside => {
                let generation = self.schedule_child_close(item_index);
                MenuPolygonDirective::ScheduleClose { generation, delay: POLYGON_CLOSE_DELAY }
            },
            MenuPolygonVerdict::Outside => {
                self.cancel_child_close();
                self.disarm_child_polygon();
                MenuPolygonDirective::CloseBranch
            },
            _ => {
                self.cancel_child_close();
                MenuPolygonDirective::Settled
            },
        }
    }

    /// The pointer came back onto a submenu trigger: a pending close of the
    /// branch is cancelled and the safe polygon target forgotten (the host
    /// disarms its polygon beside this call).
    pub fn enter_branch_trigger(&mut self)
        ensures
            final(self)@ == (MenuRuntimeView { child_polygon_item: None, ..old(self)@.after_cancel_child_close() }),
    {
        self.cancel_child_close();
        self.disarm_child_polygon();
    }

    /// The pointer left the trigger of the open branch at `item_index`: the
    /// safe polygon targets that branch when the host could arm one, and the
    /// branch is scheduled to close after its close delay, but never sooner
    /// than `POLYGON_CLOSE_DELAY`. Returns the timer's generation and delay.
    pub fn leave_open_branch_trigger(&mut self, item_index: usize, close_delay: u64, polygon_armed: bool) -> (r: (u64, u64))
        ensures
            ({
                let targeted = if polygon_armed {
                    MenuRuntimeView { child_polygon_item: Some(item_index), ..old(self)@ }
                } else {
                    old(self)@
                };
                let (s, generation) = targeted.after_schedule_child_close(item_index);
                final(self)@ == s && r == (generation, if close_delay > POLYGON_CLOSE_DELAY {
                    close_delay
                } else {
                    POLYGON_CLOSE_DELAY
                })
            }),
    {
        if polygon_armed {
            self.arm_child_polygon(item_index);
        }
        let generation = self.schedule_child_close(item_index);
        let delay = if close_delay > POLYGON_CLOSE_DELAY {
            close_delay
        } else {
            POLYGON_CLOSE_DELAY
        };
        (generation, delay)
    }

    /// Records the placement the positioner resolved; reports whether it
    /// changed.
    pub fn set_effective_placement(&mut self, side: MenuSide, align: MenuAlign) -> (changed: bool)
        ensures
            changed == !(old(self)@.effective_side == Some(side) && old(self)@.effective_align == Some(align)),
            final(self)@ == (MenuRuntimeView {
                effective_side: Some(side),
                effective_align: Some(align),
                ..old(self)@
            }),
    {
        if self.effective_side == Some(side) && self.effective_align == Some(align) {
            return false;
        }
        self.effective_side = Some(side);
        self.effective_align = Some(align);
        true
    }

    pub fn effective_side(&self) -> (r: Option<MenuSide>)
        ensures
            r == self@.effective_side,
    {
        self.effective_side
    }

    pub fn effective_align(&self) -> (r: Option<MenuAlign>)
        ensures
            r == self@.effective_align,
    {
        self.effective_align
    }


    /// Style state of the root part.
    pub fn root_state(&self, props: &MenuProps) -> (state: MenuRootStyleState)
        ensures
            state == (MenuRootStyleState {
                open: self@.open,
                disabled: props.spec_disabled(),
                parent_kind: self@.parent_kind,
                instant: self@.instant,
            }),
    {
        MenuRootStyleState::new(self.open, props.disabled(), self.parent_kind, self.instant)
    }

    /// Style state of the trigger part: the payload is the current trigger's
    /// (cloned), and it counts as present when either the part or the active
    /// trigger carries one.
    pub fn trigger_state(&self, disabled: bool, payload_present: bool) -> (state: MenuTriggerStyleState<P>)
        where P: Clone,
        ensures
            state.open == self@.open,
            state.disabled == disabled,
            state.active_trigger == self@.trigger is Some,
            state.payload_present == (payload_present || (self@.trigger matches Some(t) && t.payload is Some)),
            !state.focused,
            match self@.trigger {
                Some(t) => match t.payload {
                    Some(p) => state.payload matches Some(q) && cloned(p, q),
                    None => state.payload is None,
                },
                None => state.payload is None,
            },
    {
        let payload = self.active_payload();
        let present = payload_present || payload.is_some();
        MenuTriggerStyleState::new(self.open, disabled, self.trigger.is_some(), present, payload)
    }

    /// Style state of the portal part.
    pub fn portal_state(&self, keep_mounted: bool) -> (state: MenuPortalStyleState)
        ensures
            state == (MenuPortalStyleState { open: self@.open, mounted: self@.mounted(keep_mounted) }),
    {
        MenuPortalStyleState::new(self.open, self.mounted_value(keep_mounted))
    }

    /// Style state of the backdrop part: not interactive for hover opens.
    pub fn backdrop_state(&self, keep_mounted: bool) -> (state: MenuBackdropStyleState)
        ensures
            state == (MenuBackdropStyleState {
                open: self@.open,
                mounted: self@.mounted(keep_mounted),
                interactive: self@.last_open_reason != MenuOpenChangeReason::TriggerHover,
            }),
    {
        MenuBackdropStyleState::new(self.open, self.mounted_value(keep_mounted), !self.opened_by_hover())
    }

    /// Style state of the positioner part: the resolved placement when one
    /// was recorded, else the given one; the anchor is never hidden here.
    pub fn positioner_state(&self, side: MenuSide, align: MenuAlign, keep_mounted: bool) -> (state: MenuPositionerStyleState)
        ensures
            state == (MenuPositionerStyleState {
                open: self@.open,
                mounted: self@.mounted(keep_mounted),
                side: match self@.effective_side {
                    Some(s) => s,
                    None => side,
                },
                align: match self@.effective_align {
                    Some(a) => a,
                    None => align,
                },
                anchor_hidden: false,
                nested: self@.parent_kind == MenuParentKind::Submenu,
                instant: self@.instant,
            }),
    {
        let side = match self.effective_side {
            Some(s) => s,
            None => side,
        };
        let align = match self.effective_align {
            Some(a) => a,
            None => align,
        };
        MenuPositionerStyleState::new(
            self.open,
            self.mounted_value(keep_mounted),
            side,
            align,
            false,
            self.parent_kind == MenuParentKind::Submenu,
            self.instant,
        )
    }

    /// Style state of the popup part: the resolved placement when one was
    /// recorded, else the requested one.
    pub fn popup_state(&self, side: MenuSide, align: MenuAlign, keep_mounted: bool) -> (state: MenuPopupStyleState)
        ensures
            state == (MenuPopupStyleState {
                open: self@.open,
                mounted: self@.mounted(keep_mounted),
                side: match self@.effective_side {
                    Some(s) => s,
                    None => side,
                },
                align: match self@.effective_align {
                    Some(a) => a,
                    None => align,
                },
                nested: self@.parent_kind == MenuParentKind::Submenu,
                instant: self@.instant,
            }),
    {
        let side = match self.effective_side {
            Some(s) => s,
            None => side,
        };
        let align = match self.effective_align {
            Some(a) => a,
            None => align,
        };
        MenuPopupStyleState::new(
            self.open,
            self.mounted_value(keep_mounted),
            side,
            align,
            self.parent_kind == MenuParentKind::Submenu,
            self.instant,
        )
    }

    fn highlighted(&self, index: Option<usize>) -> (r: bool)
        ensures
            r == self@.is_highlighted(index),
    {
        index.is_some() && self.highlighted_index == index
    }

    /// Style state of a plain item.
    pub fn item_state(&self, index: Option<usize>, disabled: bool) -> (state: MenuItemStyleState)
        ensures
            state == (MenuItemStyleState { highlighted: self@.is_highlighted(index), disabled }),
    {
        MenuItemStyleState::new(self.highlighted(index), disabled)
    }

    /// Style state of a link item.
    pub fn link_item_state(&self, index: Option<usize>) -> (state: MenuLinkItemStyleState)
        ensures
            state == (MenuLinkItemStyleState { highlighted: self@.is_highlighted(index) }),
    {
        MenuLinkItemStyleState::new(self.highlighted(index))
    }

    /// Style state of a checkbox item.
    pub fn checkbox_item_state(&self, index: Option<usize>, disabled: bool, checked: bool) -> (state: MenuCheckboxItemStyleState)
        ensures
            state == (MenuCheckboxItemStyleState { checked, highlighted: self@.is_highlighted(index), disabled }),
    {
        MenuCheckboxItemStyleState::new(checked, self.highlighted(index), disabled)
    }

    /// Style state of a checkbox indicator: present when checked or kept
    /// mounted.
    pub fn checkbox_indicator_state(&self, index: Option<usize>, disabled: bool, checked: bool, keep_mounted: bool) -> (state: MenuCheckboxItemIndicatorStyleState)
        ensures
            state == (MenuCheckboxItemIndicatorStyleState {
                checked,
                highlighted: self@.is_highlighted(index),
                disabled,
                present: checked || keep_mounted,
            }),
    {
        MenuCheckboxItemIndicatorStyleState::new(checked, self.highlighted(index), disabled, checked || keep_mounted)
    }

    /// Style state of a radio group.
    pub fn radio_group_state(&self, disabled: bool) -> (state: MenuRadioGroupStyleState)
        ensures
            state == (MenuRadioGroupStyleState { disabled }),
    {
        MenuRadioGroupStyleState::new(disabled)
    }

    /// Style state of a radio item.
    pub fn radio_item_state(&self, index: Option<usize>, disabled: bool, checked: bool) -> (state: MenuRadioItemStyleState)
        ensures
            state == (MenuRadioItemStyleState { checked, highlighted: self@.is_highlighted(index), disabled }),
    {
        MenuRadioItemStyleState::new(checked, self.highlighted(index), disabled)
    }

    /// Style state of a radio indicator: present when checked or kept
    /// mounted.
    pub fn radio_indicator_state(&self, index: Option<usize>, disabled: bool, checked: bool, keep_mounted: bool) -> (state: MenuRadioItemIndicatorStyleState)
        ensures
            state == (MenuRadioItemIndicatorStyleState {
                checked,
                highlighted: self@.is_highlighted(index),
                disabled,
                present: checked || keep_mounted,
            }),
    {
        MenuRadioItemIndicatorStyleState::new(checked, self.highlighted(index), disabled, checked || keep_mounted)
    }

    /// Style state of a submenu trigger: open when its branch is the open one.
    pub fn submenu_trigger_state(&self, index: Option<usize>, disabled: bool) -> (state: MenuSubmenuTriggerStyleState)
        ensures
            state == (MenuSubmenuTriggerStyleState {
                open: index is Some && self@.open_submenu_item == index,
                highlighted: self@.is_highlighted(index),
                disabled,
            }),
    {
        let open = index.is_some() && self.open_submenu_item == index;
        MenuSubmenuTriggerStyleState::new(open, self.highlighted(index), disabled)
    }

    /// Style state of an item group.
    pub fn group_state(&self) -> (state: MenuGroupStyleState)
        ensures
            state == (MenuGroupStyleState { disabled: false }),
    {
        MenuGroupStyleState::new(false)
    }

    /// Style state of a group label.
    pub fn group_label_state(&self) -> (state: MenuGroupLabelStyleState)
        ensures
            state == MenuGroupLabelStyleState,
    {
        MenuGroupLabelStyleState
    }

    /// Whether item `index` owns the popup's roving tab stop (it is the
    /// highlighted one).
    pub fn item_is_tab_stop(&self, index: Option<usize>) -> (r: bool)
        ensures
            r == self@.is_highlighted(index),
    {
        self.highlighted(index)
    }


    /// First half of an open-state change: reconciles a controlled open
    /// value, then requests the transition from the effective current value
    /// (the controlled one when given, else the runtime's own).
    pub fn begin_open_change(&mut self, controlled_open: Option<bool>, next_open: bool) -> (o: MenuOpenChangeOutcome<P, I>)
        where P: Clone, I: Clone,
        ensures
            final(self)@ == (match controlled_open {
                Some(open) => old(self)@.after_sync_open(open),
                None => old(self)@,
            }),
            o@.changed == final(self)@.open_change_accepted(
                match controlled_open {
                    Some(open) => open,
                    None => old(self)@.open,
                },
                next_open,
            ),
            o@.open == (if o@.changed {
                next_open
            } else {
                match controlled_open {
                    Some(open) => open,
                    None => old(self)@.open,
                }
            }),
    {
        if let Some(open) = controlled_open {
            self.sync_open_from_context(open);
        }
        let current = match controlled_open {
            Some(open) => open,
            None => self.open,
        };
        self.request_open_change(current, next_open)
    }

    /// Second half of an accepted open-state change: commits it (the open
    /// value itself only when uncontrolled), records its reason and source,
    /// and on open asks for popup focus when the modality calls for it.
    pub fn finish_open_change(
        &mut self,
        open: bool,
        reason: MenuOpenChangeReason,
        source: MenuOpenChangeSource,
        prevent_unmount_on_close: bool,
        controlled: bool,
    )
        ensures
            ({
                let s = old(self)@.after_commit_open(open, prevent_unmount_on_close, !controlled)
                    .after_record_open_change(reason, source);
                final(self)@ == (if open {
                    MenuRuntimeView {
                        focus_popup_on_open: (reason == MenuOpenChangeReason::TriggerPress || reason
                            == MenuOpenChangeReason::ListNavigation) && (source == MenuOpenChangeSource::Pointer
                            || source == MenuOpenChangeSource::Keyboard),
                        ..s
                    }
                } else {
                    s
                })
            }),
    {
        self.commit_open(open, prevent_unmount_on_close, !controlled);
        self.record_open_change(reason, source);
        if open {
            self.request_popup_focus_on_open(reason, source);
        }
    }

    /// Settles an accepted open-state change once the change callback ran:
    /// a change the callback canceled leaves the runtime untouched; any other
    /// is finished as by [`Self::finish_open_change`], keeping the popup
    /// mounted through a close when the callback asked for it. Reports
    /// whether the change was committed.
    pub fn settle_open_change(
        &mut self,
        open: bool,
        reason: MenuOpenChangeReason,
        source: MenuOpenChangeSource,
        canceled: bool,
        prevent_unmount_requested: bool,
        controlled: bool,
    ) -> (committed: bool)
        ensures
            committed == !canceled,
            canceled ==> final(self)@ == old(self)@,
            !canceled ==> ({
                let s = old(self)@.after_commit_open(open, !open && prevent_unmount_requested, !controlled)
                    .after_record_open_change(reason, source);
                final(self)@ == (if open {
                    MenuRuntimeView {
                        focus_popup_on_open: (reason == MenuOpenChangeReason::TriggerPress || reason
                            == MenuOpenChangeReason::ListNavigation) && (source == MenuOpenChangeSource::Pointer
                            || source == MenuOpenChangeSource::Keyboard),
                        ..s
                    }
                } else {
                    s
                })
            }),
    {
        if canceled {
            return false;
        }
        self.finish_open_change(open, reason, source, !open && prevent_unmount_requested, controlled);
        true
    }

    /// Decides whether a trigger click closes the menu: only an enabled
    /// menubar trigger of an open menu closes, and not on the click whose
    /// press-down opened it (that marker is consumed here).
    pub fn take_click_close(&mut self, disabled: bool, in_menubar: bool, was_open: bool) -> (closes: bool)
        ensures
            (!disabled && in_menubar && was_open) ==> ({
                let (s, opened_by_this_press) = old(self)@.after_take_opened_by_current_press();
                final(self)@ == s && closes == !opened_by_this_press
            }),
            !(!disabled && in_menubar && was_open) ==> final(self)@ == old(self)@ && !closes,
    {
        if disabled || !in_menubar || !was_open {
            return false;
        }
        !self.take_opened_by_current_press()
    }

    /// Clears the typeahead buffer.
    pub fn reset_typeahead(&mut self)
        ensures
            final(self)@ == (MenuRuntimeView { typeahead: Seq::empty(), last_typeahead_at: None, ..old(self)@ }),
    {
        self.typeahead = Vec::new();
        self.last_typeahead_at = None;
        assert(self@.typeahead =~= Seq::<char>::empty());
    }

    /// Cancels a pending delayed child close and invalidates its timer.
    pub fn cancel_child_close(&mut self)
        ensures
            final(self)@ == old(self)@.after_cancel_child_close(),
    {
        self.child_close_generation = bump_generation(self.child_close_generation);
        self.pending_child_close = None;
    }

    /// Forgets the child-branch target of the safe polygon (the host disarms
    /// its polygon beside this call).
    pub fn disarm_child_polygon(&mut self)
        ensures
            final(self)@ == (MenuRuntimeView { child_polygon_item: None, ..old(self)@ }),
    {
        self.child_polygon_item = None;
    }
}

} // verus!
