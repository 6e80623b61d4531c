//! Metadata and detail records exchanged between the host and a menu runtime.
use vstd::prelude::*;

use crate::menu::kinds::{MenuItemKind, MenuOpenChangeReason, MenuOpenChangeSource};

verus! {

/// Abstract contents of [`MenuOpenChangeDetails`].
pub struct MenuOpenChangeDetailsView<P, I> {
    pub reason: MenuOpenChangeReason,
    pub source: MenuOpenChangeSource,
    pub trigger_id: Option<I>,
    pub payload: Option<P>,
    pub cancelable: bool,
    pub canceled: bool,
    pub prevent_unmount_on_close: bool,
}

/// Details handed to open-change callbacks: why and how the change was
/// requested, which trigger and payload it concerns, and whether a callback
/// canceled it or asked to keep the popup mounted while closing.
#[derive(Clone)]
pub struct MenuOpenChangeDetails<P, I> {
    reason: MenuOpenChangeReason,
    source: MenuOpenChangeSource,
    trigger_id: Option<I>,
    payload: Option<P>,
    cancelable: bool,
    canceled: bool,
    prevent_unmount_on_close: bool,
}

impl<P, I> View for MenuOpenChangeDetails<P, I> {
    type V = MenuOpenChangeDetailsView<P, I>;

    closed spec fn view(&self) -> MenuOpenChangeDetailsView<P, I> {
        MenuOpenChangeDetailsView {
            reason: self.reason,
            source: self.source,
            trigger_id: self.trigger_id,
            payload: self.payload,
            cancelable: self.cancelable,
            canceled: self.canceled,
            prevent_unmount_on_close: self.prevent_unmount_on_close,
        }
    }
}

impl<P, I> MenuOpenChangeDetails<P, I> {
    pub fn new(
        reason: MenuOpenChangeReason,
        source: MenuOpenChangeSource,
        trigger_id: Option<I>,
        payload: Option<P>,
        cancelable: bool,
    ) -> (details: Self)
        ensures
            details@ == (MenuOpenChangeDetailsView {
                reason,
                source,
                trigger_id,
                payload,
                cancelable,
                canceled: false,
                prevent_unmount_on_close: false,
            }),
    {
        MenuOpenChangeDetails {
            reason,
            source,
            trigger_id,
            payload,
            cancelable,
            canceled: false,
            prevent_unmount_on_close: false,
        }
    }

    pub fn reason(&self) -> (r: MenuOpenChangeReason)
        ensures
            r == self@.reason,
    {
        self.reason
    }

    pub fn source(&self) -> (r: MenuOpenChangeSource)
        ensures
            r == self@.source,
    {
        self.source
    }

    pub fn trigger_id(&self) -> (r: Option<&I>)
        ensures
            r == match self@.trigger_id {
                Some(id) => Some(&id),
                None => None::<&I>,
            },
    {
        match &self.trigger_id {
            Some(id) => Some(id),
            None => None,
        }
    }

    pub fn payload(&self) -> (r: Option<&P>)
        ensures
            r == match self@.payload {
                Some(p) => Some(&p),
                None => None::<&P>,
            },
    {
        match &self.payload {
            Some(p) => Some(p),
            None => None,
        }
    }

    pub fn cancelable(&self) -> (r: bool)
        ensures
            r == self@.cancelable,
    {
        self.cancelable
    }

    /// Cancels the change; a no-op for non-cancelable details.
    pub fn cancel(&mut self)
        ensures
            final(self)@ == (MenuOpenChangeDetailsView {
                canceled: old(self)@.canceled || old(self)@.cancelable,
                ..old(self)@
            }),
    {
        if self.cancelable {
            self.canceled = true;
        }
    }

    pub fn is_canceled(&self) -> (r: bool)
        ensures
            r == self@.canceled,
    {
        self.canceled
    }

    /// Keeps the popup mounted through the close this change performs.
    pub fn prevent_unmount_on_close(&mut self)
        ensures
            final(self)@ == (MenuOpenChangeDetailsView { prevent_unmount_on_close: true, ..old(self)@ }),
    {
        self.prevent_unmount_on_close = true;
    }

    pub fn prevents_unmount_on_close(&self) -> (r: bool)
        ensures
            r == self@.prevent_unmount_on_close,
    {
        self.prevent_unmount_on_close
    }
}

/// Cancelable details for checkbox/radio item value changes.
#[derive(Clone, Copy, Debug)]
pub struct MenuItemChangeDetails {
    canceled: bool,
}

impl MenuItemChangeDetails {
    pub closed spec fn spec_canceled(&self) -> bool {
        self.canceled
    }

    pub fn new() -> (details: Self)
        ensures
            !details.spec_canceled(),
    {
        MenuItemChangeDetails { canceled: false }
    }

    pub fn cancel(&mut self)
        ensures
            final(self).spec_canceled(),
    {
        self.canceled = true;
    }

    pub fn is_canceled(&self) -> (r: bool)
        ensures
            r == self.spec_canceled(),
    {
        self.canceled
    }
}

impl Default for MenuItemChangeDetails {
    fn default() -> (details: Self)
        ensures
            !details.spec_canceled(),
    {
        MenuItemChangeDetails::new()
    }
}

/// Abstract contents of [`MenuItemMetadata`]; the label is its characters.
pub struct MenuItemView {
    pub index: usize,
    pub kind: MenuItemKind,
    pub label: Option<Seq<char>>,
    pub disabled: bool,
    pub close_on_click: bool,
}

/// What a menu knows about one registered item. The host keeps the item's
/// focus handle, measured bounds and activation callback beside it, keyed by
/// the same index.
#[derive(Clone, Debug)]
pub struct MenuItemMetadata {
    index: usize,
    kind: MenuItemKind,
    label: Option<String>,
    disabled: bool,
    close_on_click: bool,
}

impl View for MenuItemMetadata {
    type V = MenuItemView;

    closed spec fn view(&self) -> MenuItemView {
        MenuItemView {
            index: self.index,
            kind: self.kind,
            label: match self.label {
                Some(l) => Some(l@),
                None => None,
            },
            disabled: self.disabled,
            close_on_click: self.close_on_click,
        }
    }
}

impl MenuItemMetadata {
    pub fn new(
        index: usize,
        kind: MenuItemKind,
        label: Option<String>,
        disabled: bool,
        close_on_click: bool,
    ) -> (item: Self)
        ensures
            item@ == (MenuItemView {
                index,
                kind,
                label: match label {
                    Some(l) => Some(l@),
                    None => None,
                },
                disabled,
                close_on_click,
            }),
    {
        MenuItemMetadata { index, kind, label, disabled, close_on_click }
    }

    pub fn index(&self) -> (r: usize)
        ensures
            r == self@.index,
    {
        self.index
    }

    pub fn kind(&self) -> (r: MenuItemKind)
        ensures
            r == self@.kind,
    {
        self.kind
    }

    pub fn label(&self) -> (r: Option<&String>)
        ensures
            r is Some == self@.label is Some,
            r matches Some(l) ==> self@.label == Some(l@),
    {
        match &self.label {
            Some(l) => Some(l),
            None => None,
        }
    }

    pub fn disabled(&self) -> (r: bool)
        ensures
            r == self@.disabled,
    {
        self.disabled
    }

    pub fn close_on_click(&self) -> (r: bool)
        ensures
            r == self@.close_on_click,
    {
        self.close_on_click
    }
}

/// Abstract contents of [`MenuTriggerMetadata`].
pub struct MenuTriggerView<P, I> {
    pub id: I,
    pub disabled: bool,
    pub open_on_hover: bool,
    pub delay: u64,
    pub close_delay: u64,
    pub payload: Option<P>,
}

/// What a menu knows about its trigger: its identifier, the hover-open
/// settings (delays in nanoseconds) and the payload it carries. The host
/// keeps the trigger's focus handle and measured bounds beside it.
#[derive(Clone)]
pub struct MenuTriggerMetadata<P, I> {
    id: I,
    disabled: bool,
    open_on_hover: bool,
    delay: u64,
    close_delay: u64,
    payload: Option<P>,
}

impl<P, I> View for MenuTriggerMetadata<P, I> {
    type V = MenuTriggerView<P, I>;

    closed spec fn view(&self) -> MenuTriggerView<P, I> {
        MenuTriggerView {
            id: self.id,
            disabled: self.disabled,
            open_on_hover: self.open_on_hover,
            delay: self.delay,
            close_delay: self.close_delay,
            payload: self.payload,
        }
    }
}

impl<P, I> MenuTriggerMetadata<P, I> {
    pub fn new(
        id: I,
        disabled: bool,
        open_on_hover: bool,
        delay: u64,
        close_delay: u64,
        payload: Option<P>,
    ) -> (trigger: Self)
        ensures
            trigger@ == (MenuTriggerView { id, disabled, open_on_hover, delay, close_delay, payload }),
    {
        MenuTriggerMetadata { id, disabled, open_on_hover, delay, close_delay, payload }
    }

    pub fn id(&self) -> (r: &I)
        ensures
            *r == self@.id,
    {
        &self.id
    }

    pub fn disabled(&self) -> (r: bool)
        ensures
            r == self@.disabled,
    {
        self.disabled
    }

    pub fn open_on_hover(&self) -> (r: bool)
        ensures
            r == self@.open_on_hover,
    {
        self.open_on_hover
    }

    pub fn delay(&self) -> (r: u64)
        ensures
            r == self@.delay,
    {
        self.delay
    }

    pub fn close_delay(&self) -> (r: u64)
        ensures
            r == self@.close_delay,
    {
        self.close_delay
    }

    pub fn payload(&self) -> (r: Option<&P>)
        ensures
            r == match self@.payload {
                Some(p) => Some(&p),
                None => None::<&P>,
            },
    {
        match &self.payload {
            Some(p) => Some(p),
            None => None,
        }
    }
}

/// Explicit tree link from a parent menu to one child submenu anchored at an
/// item. `commands` is the host's handle for opening, closing and querying
/// that child; `close_delay` is in nanoseconds.
#[derive(Clone)]
pub struct MenuSubmenuLink<L> {
    pub item_index: usize,
    pub close_delay: u64,
    pub commands: L,
}

impl<L> MenuSubmenuLink<L> {
    pub fn new(item_index: usize, close_delay: u64, commands: L) -> (link: Self)
        ensures
            link == (MenuSubmenuLink { item_index, close_delay, commands }),
    {
        MenuSubmenuLink { item_index, close_delay, commands }
    }

    pub fn item_index(&self) -> (r: usize)
        ensures
            r == self.item_index,
    {
        self.item_index
    }

    pub fn close_delay(&self) -> (r: u64)
        ensures
            r == self.close_delay,
    {
        self.close_delay
    }

    pub fn commands(&self) -> (r: &L)
        ensures
            *r == self.commands,
    {
        &self.commands
    }
}

/// Abstract contents of [`MenuOpenChangeOutcome`].
pub struct MenuOpenChangeOutcomeView<P, I> {
    pub changed: bool,
    pub open: bool,
    pub trigger_id: Option<I>,
    pub payload: Option<P>,
}

/// Result of an open-change request: whether anything changes, the open
/// value to commit, and the trigger and payload the change concerns.
pub struct MenuOpenChangeOutcome<P, I> {
    changed: bool,
    open: bool,
    trigger_id: Option<I>,
    payload: Option<P>,
}

impl<P, I> View for MenuOpenChangeOutcome<P, I> {
    type V = MenuOpenChangeOutcomeView<P, I>;

    closed spec fn view(&self) -> MenuOpenChangeOutcomeView<P, I> {
        MenuOpenChangeOutcomeView {
            changed: self.changed,
            open: self.open,
            trigger_id: self.trigger_id,
            payload: self.payload,
        }
    }
}

impl<P, I> MenuOpenChangeOutcome<P, I> {
    pub(crate) fn new(changed: bool, open: bool, trigger_id: Option<I>, payload: Option<P>) -> (o: Self)
        ensures
            o@ == (MenuOpenChangeOutcomeView { changed, open, trigger_id, payload }),
    {
        MenuOpenChangeOutcome { changed, open, trigger_id, payload }
    }

    pub fn changed(&self) -> (r: bool)
        ensures
            r == self@.changed,
    {
        self.changed
    }

    pub fn open(&self) -> (r: bool)
        ensures
            r == self@.open,
    {
        self.open
    }

    pub fn trigger_id(&self) -> (r: Option<&I>)
        ensures
            r == match self@.trigger_id {
                Some(id) => Some(&id),
                None => None::<&I>,
            },
    {
        match &self.trigger_id {
            Some(id) => Some(id),
            None => None,
        }
    }

    pub fn into_parts(self) -> (parts: (bool, Option<I>, Option<P>))
        ensures
            parts == (self@.open, self@.trigger_id, self@.payload),
    {
        (self.open, self.trigger_id, self.payload)
    }
}

} // verus!
