//! The menubar runtime: trigger slots in source order, the roving highlight,
//! whether a child menu is open, and which one. `F` is the host's focus
//! handle type and `C` its typed open/close command for one hosted menu; the
//! host keeps the row's measured bounds.
use vstd::prelude::*;

use crate::direction::{arrow_step, HorizontalArrowKey, HorizontalDirection, TextDirection};
use crate::menu::kinds::{MenuMove, MenuOpenChangeReason, MenuOpenChangeSource};
use crate::menu::runtime::{moved_highlight, next_highlight};
use crate::menubar::props::{MenubarOrientation, MenubarProps};
use crate::menubar::style_state::MenubarStyleState;

verus! {

/// A roving-highlight movement across the menubar's triggers.
#[derive(Clone, Copy, Debug, PartialEq, Eq, Structural)]
pub enum MenubarMove {
    Next,
    Previous,
    First,
    Last,
}

/// The menu movement with the same meaning.
pub open spec fn as_menu_move(direction: MenubarMove) -> MenuMove {
    match direction {
        MenubarMove::Next => MenuMove::Next,
        MenubarMove::Previous => MenuMove::Previous,
        MenubarMove::First => MenuMove::First,
        MenubarMove::Last => MenuMove::Last,
    }
}

fn to_menu_move(direction: MenubarMove) -> (m: MenuMove)
    ensures
        m == as_menu_move(direction),
{
    match direction {
        MenubarMove::Next => MenuMove::Next,
        MenubarMove::Previous => MenuMove::Previous,
        MenubarMove::First => MenuMove::First,
        MenubarMove::Last => MenuMove::Last,
    }
}

/// The menubar movement a hosted menu relays for a menu movement.
pub fn menubar_move(direction: MenuMove) -> (m: MenubarMove)
    ensures
        as_menu_move(m) == direction,
{
    match direction {
        MenuMove::Next => MenubarMove::Next,
        MenuMove::Previous => MenubarMove::Previous,
        MenuMove::First => MenubarMove::First,
        MenuMove::Last => MenubarMove::Last,
    }
}

/// The menubar movement for a logical horizontal step.
pub fn horizontal_move(direction: HorizontalDirection) -> (m: MenubarMove)
    ensures
        m == (match direction {
            HorizontalDirection::Next => MenubarMove::Next,
            HorizontalDirection::Previous => MenubarMove::Previous,
        }),
{
    match direction {
        HorizontalDirection::Next => MenubarMove::Next,
        HorizontalDirection::Previous => MenubarMove::Previous,
    }
}

/// A key binding of the menubar row.
#[derive(Clone, Copy, Debug, PartialEq, Eq, Structural)]
pub enum MenubarKey {
    Left,
    Right,
    Up,
    Down,
    Home,
    End,
}

/// The roving move a key performs on a menubar of the given orientation:
/// left/right arrows only move a horizontal bar (flipping in RTL), up/down
/// only a vertical one, Home/End always.
pub open spec fn key_move(orientation: MenubarOrientation, direction: TextDirection, key: MenubarKey) -> Option<MenubarMove> {
    match key {
        MenubarKey::Left => if orientation == MenubarOrientation::Horizontal {
            Some(if arrow_step(direction, HorizontalArrowKey::Left) == HorizontalDirection::Next {
                MenubarMove::Next
            } else {
                MenubarMove::Previous
            })
        } else {
            None
        },
        MenubarKey::Right => if orientation == MenubarOrientation::Horizontal {
            Some(if arrow_step(direction, HorizontalArrowKey::Right) == HorizontalDirection::Next {
                MenubarMove::Next
            } else {
                MenubarMove::Previous
            })
        } else {
            None
        },
        MenubarKey::Up => if orientation == MenubarOrientation::Vertical { Some(MenubarMove::Previous) } else { None },
        MenubarKey::Down => if orientation == MenubarOrientation::Vertical { Some(MenubarMove::Next) } else { None },
        MenubarKey::Home => Some(MenubarMove::First),
        MenubarKey::End => Some(MenubarMove::Last),
    }
}

/// Resolves a menubar key binding to the roving move it performs.
pub fn menubar_key_move(orientation: MenubarOrientation, direction: TextDirection, key: MenubarKey) -> (m: Option<MenubarMove>)
    ensures
        m == key_move(orientation, direction, key),
{
    match key {
        MenubarKey::Left => if orientation == MenubarOrientation::Horizontal {
            Some(horizontal_move(direction.horizontal_arrow(HorizontalArrowKey::Left)))
        } else {
            None
        },
        MenubarKey::Right => if orientation == MenubarOrientation::Horizontal {
            Some(horizontal_move(direction.horizontal_arrow(HorizontalArrowKey::Right)))
        } else {
            None
        },
        MenubarKey::Up => if orientation == MenubarOrientation::Vertical { Some(MenubarMove::Previous) } else { None },
        MenubarKey::Down => if orientation == MenubarOrientation::Vertical { Some(MenubarMove::Next) } else { None },
        MenubarKey::Home => Some(MenubarMove::First),
        MenubarKey::End => Some(MenubarMove::Last),
    }
}

/// The source recorded for a menubar handoff: keyboard for list
/// navigation, pointer otherwise.
pub fn handoff_source(reason: MenuOpenChangeReason) -> (source: MenuOpenChangeSource)
    ensures
        source == (if reason == MenuOpenChangeReason::ListNavigation {
            MenuOpenChangeSource::Keyboard
        } else {
            MenuOpenChangeSource::Pointer
        }),
{
    if reason == MenuOpenChangeReason::ListNavigation {
        MenuOpenChangeSource::Keyboard
    } else {
        MenuOpenChangeSource::Pointer
    }
}

/// Abstract contents of a [`MenubarTriggerSlot`].
pub struct MenubarTriggerSlotView<F, C> {
    pub disabled: bool,
    pub focus_handle: Option<F>,
    pub open: Option<C>,
    pub close: Option<C>,
}

/// One trigger slot in the menubar's roving order, filled in two phases:
/// child wiring seeds the slot and its disabled fact; the hosted menu's
/// render registers its focus handle and typed open/close commands.
pub struct MenubarTriggerSlot<F, C> {
    disabled: bool,
    focus_handle: Option<F>,
    open: Option<C>,
    close: Option<C>,
}

impl<F, C> View for MenubarTriggerSlot<F, C> {
    type V = MenubarTriggerSlotView<F, C>;

    closed spec fn view(&self) -> MenubarTriggerSlotView<F, C> {
        MenubarTriggerSlotView {
            disabled: self.disabled,
            focus_handle: self.focus_handle,
            open: self.open,
            close: self.close,
        }
    }
}

impl<F, C> MenubarTriggerSlot<F, C> {
    pub fn new(disabled: bool) -> (slot: Self)
        ensures
            slot@ == (MenubarTriggerSlotView::<F, C> { disabled, focus_handle: None, open: None, close: None }),
    {
        MenubarTriggerSlot { disabled, focus_handle: None, open: None, close: None }
    }

    pub fn disabled(&self) -> (r: bool)
        ensures
            r == self@.disabled,
    {
        self.disabled
    }

    pub fn focus_handle(&self) -> (r: Option<&F>)
        ensures
            r == match self@.focus_handle {
                Some(f) => Some(&f),
                None => None::<&F>,
            },
    {
        match &self.focus_handle {
            Some(f) => Some(f),
            None => None,
        }
    }
}

/// A freshly wired slot that keeps the commands and focus handle registered
/// for the same index before.
pub open spec fn carried_slot<F, C>(fresh: MenubarTriggerSlotView<F, C>, previous: MenubarTriggerSlotView<F, C>) -> MenubarTriggerSlotView<F, C> {
    MenubarTriggerSlotView {
        disabled: fresh.disabled,
        focus_handle: previous.focus_handle,
        open: previous.open,
        close: previous.close,
    }
}

/// The slots after re-wiring: each index keeps what was registered for it.
pub open spec fn synced_slots<F, C>(fresh: Seq<MenubarTriggerSlotView<F, C>>, previous: Seq<MenubarTriggerSlotView<F, C>>) -> Seq<MenubarTriggerSlotView<F, C>> {
    Seq::new(
        fresh.len(),
        |i: int| if i < previous.len() { carried_slot(fresh[i], previous[i]) } else { fresh[i] },
    )
}

/// Abstract state of a [`MenubarRuntime`].
pub struct MenubarRuntimeView<F, C> {
    pub triggers: Seq<MenubarTriggerSlotView<F, C>>,
    pub highlighted_index: Option<usize>,
    pub has_submenu_open: bool,
    pub open_menu_index: Option<usize>,
    pub allow_mouse_up_trigger: bool,
}

impl<F, C> MenubarRuntimeView<F, C> {
    pub open spec fn after_reconcile(self) -> Self {
        let len = self.triggers.len();
        let valid = self.highlighted_index matches Some(h) && h < len;
        let drop_open = self.open_menu_index matches Some(o) && o >= len;
        MenubarRuntimeView {
            highlighted_index: if valid {
                self.highlighted_index
            } else if len == 0 {
                None
            } else {
                Some(0usize)
            },
            open_menu_index: if drop_open { None } else { self.open_menu_index },
            has_submenu_open: if drop_open { false } else { self.has_submenu_open },
            ..self
        }
    }

    pub open spec fn after_move_highlight(self, direction: MenubarMove, loop_focus: bool) -> Self {
        MenubarRuntimeView {
            highlighted_index: moved_highlight(self.triggers.len(), self.highlighted_index, as_menu_move(direction), loop_focus),
            ..self
        }
    }

    pub open spec fn after_set_highlight(self, index: usize) -> Self {
        if index < self.triggers.len() {
            MenubarRuntimeView { highlighted_index: Some(index), ..self }
        } else {
            self
        }
    }

    /// A direct child menu reported an open change: opening records it as the
    /// open menu and moves the highlight to it; a close forgets it only if it
    /// is the recorded one, and keeps `has_submenu_open` only across handoff
    /// closes (`SiblingOpen`, `ListNavigation`).
    pub open spec fn after_child_open_change(self, index: usize, open: bool, reason: MenuOpenChangeReason) -> Self {
        if open {
            MenubarRuntimeView { has_submenu_open: true, open_menu_index: Some(index), ..self }.after_set_highlight(index)
        } else {
            MenubarRuntimeView {
                open_menu_index: if self.open_menu_index == Some(index) { None } else { self.open_menu_index },
                has_submenu_open: if reason == MenuOpenChangeReason::SiblingOpen || reason
                    == MenuOpenChangeReason::ListNavigation {
                    self.has_submenu_open
                } else {
                    false
                },
                ..self
            }
        }
    }

    pub open spec fn trigger_is_disabled(self, index: usize) -> bool {
        index < self.triggers.len() && self.triggers[index as int].disabled
    }
}

/// The single owner of menubar business state.
pub struct MenubarRuntime<F, C> {
    triggers: Vec<MenubarTriggerSlot<F, C>>,
    highlighted_index: Option<usize>,
    has_submenu_open: bool,
    open_menu_index: Option<usize>,
    allow_mouse_up_trigger: bool,
}

impl<F, C> View for MenubarRuntime<F, C> {
    type V = MenubarRuntimeView<F, C>;

    closed spec fn view(&self) -> MenubarRuntimeView<F, C> {
        MenubarRuntimeView {
            triggers: self.triggers@.map_values(|slot: MenubarTriggerSlot<F, C>| slot@),
            highlighted_index: self.highlighted_index,
            has_submenu_open: self.has_submenu_open,
            open_menu_index: self.open_menu_index,
            allow_mouse_up_trigger: self.allow_mouse_up_trigger,
        }
    }
}

impl<F, C> MenubarRuntime<F, C> {
    pub fn new() -> (runtime: Self)
        ensures
            runtime@ == (MenubarRuntimeView::<F, C> {
                triggers: Seq::empty(),
                highlighted_index: None,
                has_submenu_open: false,
                open_menu_index: None,
                allow_mouse_up_trigger: false,
            }),
    {
        let runtime = MenubarRuntime {
            triggers: Vec::new(),
            highlighted_index: None,
            has_submenu_open: false,
            open_menu_index: None,
            allow_mouse_up_trigger: false,
        };
        assert(runtime@.triggers =~= Seq::<MenubarTriggerSlotView<F, C>>::empty());
        runtime
    }

    /// Replaces the wired trigger slots, keeping the focus handle and typed
    /// commands previously registered at each index.
    pub fn sync_triggers(&mut self, triggers: Vec<MenubarTriggerSlot<F, C>>)
        ensures
            final(self)@ == (MenubarRuntimeView {
                triggers: synced_slots(
                    triggers@.map_values(|slot: MenubarTriggerSlot<F, C>| slot@),
                    old(self)@.triggers,
                ),
                ..old(self)@
            }),
    {
        let ghost fresh = triggers@.map_values(|slot: MenubarTriggerSlot<F, C>| slot@);
        let ghost prev = self@.triggers;
        let mut previous: Vec<MenubarTriggerSlot<F, C>> = Vec::new();
        std::mem::swap(&mut previous, &mut self.triggers);
        let mut remaining = triggers;
        let mut result: Vec<MenubarTriggerSlot<F, C>> = Vec::new();
        let ghost n = fresh.len();
        while remaining.len() > 0
            invariant
                n == fresh.len(),
                result.len() + remaining.len() == n,
                remaining@.map_values(|slot: MenubarTriggerSlot<F, C>| slot@) == fresh.skip(result.len() as int),
                previous@.map_values(|slot: MenubarTriggerSlot<F, C>| slot@) == prev.skip(
                    if result.len() <= prev.len() { result.len() as int } else { prev.len() as int },
                ),
                result@.map_values(|slot: MenubarTriggerSlot<F, C>| slot@) == synced_slots(fresh, prev).take(result.len() as int),
            decreases remaining.len(),
        {
            let ghost i = result.len() as int;
            let ghost rm = remaining@;
            let ghost pv = previous@;
            proof {
                assert(rm.map_values(|slot: MenubarTriggerSlot<F, C>| slot@)[0] == rm[0]@);
                assert(fresh.skip(i)[0] == fresh[i]);
            }
            let fresh_slot = remaining.remove(0);
            proof {
                assert(fresh_slot@ == fresh[i]);
            }
            let slot = if previous.len() > 0 {
                proof {
                    assert(pv.map_values(|slot: MenubarTriggerSlot<F, C>| slot@)[0] == pv[0]@);
                    assert(pv.map_values(|slot: MenubarTriggerSlot<F, C>| slot@).len() == pv.len());
                    assert(i < prev.len());
                    assert(prev.skip(i)[0] == prev[i]);
                }
                let old_slot = previous.remove(0);
                proof {
                    assert(old_slot@ == prev[i]);
                    assert(previous@.map_values(|slot: MenubarTriggerSlot<F, C>| slot@) =~= pv.map_values(
                        |slot: MenubarTriggerSlot<F, C>| slot@,
                    ).skip(1));
                    assert(prev.skip(i).skip(1) =~= prev.skip(i + 1));
                }
                MenubarTriggerSlot {
                    disabled: fresh_slot.disabled,
                    focus_handle: old_slot.focus_handle,
                    open: old_slot.open,
                    close: old_slot.close,
                }
            } else {
                proof {
                    assert(pv.map_values(|slot: MenubarTriggerSlot<F, C>| slot@).len() == 0);
                    assert(i >= prev.len());
                }
                fresh_slot
            };
            result.push(slot);
            proof {
                assert(remaining@.map_values(|slot: MenubarTriggerSlot<F, C>| slot@) =~= rm.map_values(
                    |slot: MenubarTriggerSlot<F, C>| slot@,
                ).skip(1));
                assert(fresh.skip(i).skip(1) =~= fresh.skip(i + 1));
                assert(remaining@.map_values(|slot: MenubarTriggerSlot<F, C>| slot@) =~= fresh.skip(i + 1));
                assert(result@.map_values(|slot: MenubarTriggerSlot<F, C>| slot@) =~= synced_slots(fresh, prev).take(i + 1));
                assert(previous@.map_values(|slot: MenubarTriggerSlot<F, C>| slot@) =~= prev.skip(
                    if i + 1 <= prev.len() { i + 1 } else { prev.len() as int },
                ));
            }
        }
        self.triggers = result;
        assert(self@.triggers =~= synced_slots(fresh, prev));
    }

    /// Resolves the roving tab stop after a sync: an out-of-range (or
    /// missing) highlight falls back to the first trigger; an open menu that
    /// no longer exists is forgotten together with `has_submenu_open`.
    /// Disabled triggers stay reachable.
    pub fn reconcile(&mut self)
        ensures
            final(self)@ == old(self)@.after_reconcile(),
    {
        let len = self.triggers.len();
        let valid = match self.highlighted_index {
            Some(index) => index < len,
            None => false,
        };
        if !valid {
            self.highlighted_index = if len == 0 {
                None
            } else {
                Some(0)
            };
        }
        if let Some(open) = self.open_menu_index {
            if open >= len {
                self.open_menu_index = None;
                self.has_submenu_open = false;
            }
        }
    }

    /// Registers one hosted menu's trigger facts and typed commands; an index
    /// outside the wired slots is ignored.
    pub fn register_trigger(&mut self, index: usize, disabled: bool, focus_handle: Option<F>, open: C, close: C)
        ensures
            final(self)@ == (if index < old(self)@.triggers.len() {
                MenubarRuntimeView {
                    triggers: old(self)@.triggers.update(
                        index as int,
                        MenubarTriggerSlotView { disabled, focus_handle, open: Some(open), close: Some(close) },
                    ),
                    ..old(self)@
                }
            } else {
                old(self)@
            }),
    {
        if index < self.triggers.len() {
            let slot = MenubarTriggerSlot { disabled, focus_handle, open: Some(open), close: Some(close) };
            self.triggers.set(index, slot);
            assert(self@.triggers =~= old(self)@.triggers.update(
                index as int,
                MenubarTriggerSlotView { disabled, focus_handle, open: Some(open), close: Some(close) },
            ));
        }
    }

    /// Moves the roving highlight across the triggers (disabled ones
    /// included), wrapping or clamping per `loop_focus`.
    pub fn move_highlight(&mut self, direction: MenubarMove, loop_focus: bool)
        ensures
            final(self)@ == old(self)@.after_move_highlight(direction, loop_focus),
    {
        self.highlighted_index = next_highlight(self.triggers.len(), self.highlighted_index, to_menu_move(direction), loop_focus);
    }

    /// Sets the roving highlight directly (hover-follow and relay origin);
    /// an index outside the triggers is ignored.
    pub fn set_highlight(&mut self, index: usize)
        ensures
            final(self)@ == old(self)@.after_set_highlight(index),
    {
        if index < self.triggers.len() {
            self.highlighted_index = Some(index);
        }
    }

    /// Maintains `has_submenu_open` and the open menu's identity from
    /// direct-child open changes.
    pub fn note_child_open_change(&mut self, index: usize, open: bool, reason: MenuOpenChangeReason)
        ensures
            final(self)@ == old(self)@.after_child_open_change(index, open, reason),
    {
        if open {
            self.has_submenu_open = true;
            self.open_menu_index = Some(index);
            self.set_highlight(index);
            return;
        }
        if self.open_menu_index == Some(index) {
            self.open_menu_index = None;
        }
        if !(reason == MenuOpenChangeReason::SiblingOpen || reason == MenuOpenChangeReason::ListNavigation) {
            self.has_submenu_open = false;
        }
    }

    pub fn has_submenu_open(&self) -> (r: bool)
        ensures
            r == self@.has_submenu_open,
    {
        self.has_submenu_open
    }

    pub fn open_menu_index(&self) -> (r: Option<usize>)
        ensures
            r == self@.open_menu_index,
    {
        self.open_menu_index
    }

    pub fn highlighted_index(&self) -> (r: Option<usize>)
        ensures
            r == self@.highlighted_index,
    {
        self.highlighted_index
    }

    /// Whether the trigger at `index` owns the menubar's single roving tab
    /// stop.
    pub fn is_tab_stop(&self, index: usize) -> (r: bool)
        ensures
            r == (self@.highlighted_index == Some(index)),
    {
        self.highlighted_index == Some(index)
    }

    /// Whether the trigger at `index` is disabled (false for unknown indices).
    pub fn trigger_disabled(&self, index: usize) -> (r: bool)
        ensures
            r == self@.trigger_is_disabled(index),
    {
        if index < self.triggers.len() {
            self.triggers[index].disabled()
        } else {
            false
        }
    }

    /// The focus handle registered for the highlighted trigger.
    pub fn highlighted_focus_handle(&self) -> (r: Option<&F>)
        ensures
            r == (match self@.highlighted_index {
                Some(h) => if h < self@.triggers.len() {
                    match self@.triggers[h as int].focus_handle {
                        Some(f) => Some(&f),
                        None => None::<&F>,
                    }
                } else {
                    None::<&F>
                },
                None => None::<&F>,
            }),
    {
        match self.highlighted_index {
            Some(index) => if index < self.triggers.len() {
                self.triggers[index].focus_handle()
            } else {
                None
            },
            None => None,
        }
    }

    /// The typed open command registered for one hosted menu.
    pub fn open_command(&self, index: usize) -> (r: Option<&C>)
        ensures
            r == (if index < self@.triggers.len() {
                match self@.triggers[index as int].open {
                    Some(c) => Some(&c),
                    None => None::<&C>,
                }
            } else {
                None::<&C>
            }),
    {
        if index < self.triggers.len() {
            match &self.triggers[index].open {
                Some(c) => Some(c),
                None => None,
            }
        } else {
            None
        }
    }

    /// The typed close command of the currently open menu, unless that menu
    /// is `except`.
    pub fn open_sibling_close_command(&self, except: usize) -> (r: Option<&C>)
        ensures
            r == (match self@.open_menu_index {
                Some(open) => if open != except && open < self@.triggers.len() {
                    match self@.triggers[open as int].close {
                        Some(c) => Some(&c),
                        None => None::<&C>,
                    }
                } else {
                    None::<&C>
                },
                None => None::<&C>,
            }),
    {
        match self.open_menu_index {
            Some(open) => if open != except && open < self.triggers.len() {
                match &self.triggers[open].close {
                    Some(c) => Some(c),
                    None => None,
                }
            } else {
                None
            },
            None => None,
        }
    }

    /// Stores the menubar-wide drag-release window shared by every hosted
    /// trigger.
    pub fn set_allow_mouse_up_trigger(&mut self, allow: bool)
        ensures
            final(self)@ == (MenubarRuntimeView { allow_mouse_up_trigger: allow, ..old(self)@ }),
    {
        self.allow_mouse_up_trigger = allow;
    }

    pub fn allow_mouse_up_trigger(&self) -> (r: bool)
        ensures
            r == self@.allow_mouse_up_trigger,
    {
        self.allow_mouse_up_trigger
    }

    pub fn trigger_count(&self) -> (r: usize)
        ensures
            r == self@.triggers.len(),
    {
        self.triggers.len()
    }

    /// The style state of the menubar root.
    pub fn root_state(&self, props: &MenubarProps) -> (state: MenubarStyleState)
        ensures
            state == (MenubarStyleState {
                orientation: props.spec_orientation(),
                modal: props.spec_modal(),
                has_submenu_open: self@.has_submenu_open,
                disabled: props.spec_disabled(),
            }),
    {
        MenubarStyleState::new(props.orientation(), props.modal(), self.has_submenu_open, props.disabled())
    }

    /// Whether handing the open menu off to `target` proceeds: not when the
    /// target is already the open menu, nor when the menubar or the target
    /// trigger is disabled.
    pub fn hand_off_allowed(&self, target: usize, menubar_disabled: bool) -> (r: bool)
        ensures
            r == !(self@.open_menu_index == Some(target) || menubar_disabled || self@.trigger_is_disabled(target)),
    {
        let already_open = self.open_menu_index == Some(target);
        let disabled = menubar_disabled || self.trigger_disabled(target);
        !(already_open || disabled)
    }

    /// Moves the roving highlight for a keyboard step and returns the trigger
    /// the open menu should be handed off to (only while a menu is open).
    /// The host focuses the highlighted trigger and performs the handoff.
    pub fn move_focus(&mut self, direction: MenubarMove, loop_focus: bool) -> (handoff: Option<usize>)
        ensures
            final(self)@ == old(self)@.after_move_highlight(direction, loop_focus),
            handoff == (if final(self)@.has_submenu_open { final(self)@.highlighted_index } else { None }),
    {
        self.move_highlight(direction, loop_focus);
        if self.has_submenu_open {
            self.highlighted_index
        } else {
            None
        }
    }

    /// Keyboard relay from the menu hosted at `from`: re-anchors the
    /// highlight at that trigger, then moves it like [`Self::move_focus`].
    pub fn relay(&mut self, from: usize, direction: MenubarMove, loop_focus: bool) -> (handoff: Option<usize>)
        ensures
            final(self)@ == old(self)@.after_set_highlight(from).after_move_highlight(direction, loop_focus),
            handoff == (if final(self)@.has_submenu_open { final(self)@.highlighted_index } else { None }),
    {
        self.set_highlight(from);
        self.move_focus(direction, loop_focus)
    }
}

} // verus!
