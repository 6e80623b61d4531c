//! The metadata a menu collects while walking its child tree once per render:
//! dense item indices (groups, labels and separators never consume one), the
//! radio group counter, typeahead labels, focus handles in source order, and
//! the registered checkbox and radio defaults. `T` is the trigger metadata
//! and `F` the host's focus handle type.
use vstd::prelude::*;

use crate::menu::details::MenuItemMetadata;
use crate::menu::laws::law_wiring_keeps_item_indices_dense;

verus! {

/// Abstract contents of a [`MenuChildWiring`].
pub struct MenuChildWiringView<T, F> {
    pub next_item_index: usize,
    pub next_radio_group_index: usize,
    pub trigger: Option<T>,
    pub items: Seq<MenuItemMetadata>,
    pub group_labels: Seq<Seq<char>>,
    pub focus_handles: Seq<F>,
    pub popup_focus_handle: Option<F>,
    pub checkbox_defaults: Seq<(usize, bool)>,
    pub radio_defaults: Seq<(usize, Option<usize>)>,
}

/// The wiring output handed back to the host once the walk is done.
pub struct WiredMenuChildren<T, F> {
    pub trigger: Option<T>,
    pub items: Vec<MenuItemMetadata>,
    pub group_labels: Vec<String>,
    pub focus_handles: Vec<F>,
    pub popup_focus_handle: Option<F>,
    pub checkbox_defaults: Vec<(usize, bool)>,
    pub radio_defaults: Vec<(usize, Option<usize>)>,
}

/// The one collector that walks a menu's children.
pub struct MenuChildWiring<T, F> {
    next_item_index: usize,
    next_radio_group_index: usize,
    trigger: Option<T>,
    items: Vec<MenuItemMetadata>,
    group_labels: Vec<String>,
    focus_handles: Vec<F>,
    popup_focus_handle: Option<F>,
    checkbox_defaults: Vec<(usize, bool)>,
    radio_defaults: Vec<(usize, Option<usize>)>,
}

/// The labels' character sequences.
pub open spec fn label_chars(labels: Seq<String>) -> Seq<Seq<char>> {
    Seq::new(labels.len(), |i: int| labels[i]@)
}

/// A focus handle sequence with an optional handle appended.
pub open spec fn with_handle<F>(handles: Seq<F>, handle: Option<F>) -> Seq<F> {
    match handle {
        Some(h) => handles.push(h),
        None => handles,
    }
}

/// Every registered item carries its position among the items as its index,
/// and the next index to hand out is the number of items.
pub open spec fn indices_dense<T, F>(w: MenuChildWiringView<T, F>) -> bool {
    &&& w.next_item_index == w.items.len()
    &&& forall|k: int| 0 <= k < w.items.len() ==> (#[trigger] w.items[k])@.index == k
}

impl<T, F> MenuChildWiringView<T, F> {
    /// The state after registering one item.
    pub open spec fn after_register_item(self, item: MenuItemMetadata) -> Self {
        MenuChildWiringView {
            next_item_index: (item@.index + 1) as usize,
            items: self.items.push(item),
            ..self
        }
    }
}

impl<T, F> MenuChildWiringView<T, F> {
    /// The state of a freshly created wiring.
    pub open spec fn initial() -> Self {
        MenuChildWiringView {
            next_item_index: 0,
            next_radio_group_index: 0,
            trigger: None,
            items: Seq::empty(),
            group_labels: Seq::empty(),
            focus_handles: Seq::empty(),
            popup_focus_handle: None,
            checkbox_defaults: Seq::empty(),
            radio_defaults: Seq::empty(),
        }
    }
}

/// One registration made while walking a menu's children.
pub enum MenuWiringStep<T, F> {
    /// `register_item` with the item and its focus handle.
    Item(MenuItemMetadata, Option<F>),
    /// `register_group_label`.
    GroupLabel(String),
    /// `register_trigger` with the trigger and its focus handle.
    Trigger(T, Option<F>),
    /// `next_radio_group_index`.
    RadioGroup,
    /// `register_checkbox_default`.
    CheckboxDefault(usize, bool),
    /// `register_radio_default`.
    RadioDefault(usize, Option<usize>),
}

/// The wiring state after one registration.
pub open spec fn wiring_step<T, F>(w: MenuChildWiringView<T, F>, step: MenuWiringStep<T, F>) -> MenuChildWiringView<T, F> {
    match step {
        MenuWiringStep::Item(item, handle) => MenuChildWiringView {
            focus_handles: with_handle(w.focus_handles, handle),
            ..w.after_register_item(item)
        },
        MenuWiringStep::GroupLabel(label) => MenuChildWiringView { group_labels: w.group_labels.push(label@), ..w },
        MenuWiringStep::Trigger(trigger, handle) => MenuChildWiringView {
            trigger: Some(trigger),
            focus_handles: with_handle(w.focus_handles, handle),
            ..w
        },
        MenuWiringStep::RadioGroup => MenuChildWiringView {
            next_radio_group_index: (w.next_radio_group_index + 1) as usize,
            ..w
        },
        MenuWiringStep::CheckboxDefault(index, checked) => MenuChildWiringView {
            checkbox_defaults: w.checkbox_defaults.push((index, checked)),
            ..w
        },
        MenuWiringStep::RadioDefault(group, selected) => MenuChildWiringView {
            radio_defaults: w.radio_defaults.push((group, selected)),
            ..w
        },
    }
}

/// Whether a registration may be made now: an item must be built with the
/// index the wiring hands out at its turn (and leave room for the next), and
/// a radio group needs room for the next group index.
pub open spec fn wiring_step_allowed<T, F>(w: MenuChildWiringView<T, F>, step: MenuWiringStep<T, F>) -> bool {
    match step {
        MenuWiringStep::Item(item, _) => item@.index == w.next_item_index && item@.index < usize::MAX,
        MenuWiringStep::RadioGroup => w.next_radio_group_index < usize::MAX,
        _ => true,
    }
}

/// The wiring state after a sequence of registrations.
pub open spec fn wiring_replay<T, F>(w: MenuChildWiringView<T, F>, steps: Seq<MenuWiringStep<T, F>>) -> MenuChildWiringView<T, F>
    decreases steps.len(),
{
    if steps.len() == 0 {
        w
    } else {
        wiring_replay(wiring_step(w, steps[0]), steps.drop_first())
    }
}

/// Whether every registration of the sequence is allowed at its turn.
pub open spec fn wiring_replay_allowed<T, F>(w: MenuChildWiringView<T, F>, steps: Seq<MenuWiringStep<T, F>>) -> bool
    decreases steps.len(),
{
    steps.len() == 0 || (wiring_step_allowed(w, steps[0]) && wiring_replay_allowed(
        wiring_step(w, steps[0]),
        steps.drop_first(),
    ))
}

/// How many of the registrations are items.
pub open spec fn item_step_count<T, F>(steps: Seq<MenuWiringStep<T, F>>) -> nat
    decreases steps.len(),
{
    if steps.len() == 0 {
        0
    } else {
        (if steps[0] is Item { 1nat } else { 0nat }) + item_step_count(steps.drop_first())
    }
}

impl<T, F> View for MenuChildWiring<T, F> {
    type V = MenuChildWiringView<T, F>;

    closed spec fn view(&self) -> MenuChildWiringView<T, F> {
        MenuChildWiringView {
            next_item_index: self.next_item_index,
            next_radio_group_index: self.next_radio_group_index,
            trigger: self.trigger,
            items: self.items@,
            group_labels: label_chars(self.group_labels@),
            focus_handles: self.focus_handles@,
            popup_focus_handle: self.popup_focus_handle,
            checkbox_defaults: self.checkbox_defaults@,
            radio_defaults: self.radio_defaults@,
        }
    }
}

impl<T, F> MenuChildWiring<T, F> {
    pub fn new() -> (wiring: Self)
        ensures
            wiring@.next_item_index == 0,
            wiring@.next_radio_group_index == 0,
            wiring@.trigger is None,
            wiring@.items == Seq::<MenuItemMetadata>::empty(),
            wiring@.group_labels == Seq::<Seq<char>>::empty(),
            wiring@.focus_handles == Seq::<F>::empty(),
            wiring@.popup_focus_handle is None,
            wiring@.checkbox_defaults == Seq::<(usize, bool)>::empty(),
            wiring@.radio_defaults == Seq::<(usize, Option<usize>)>::empty(),
            wiring@ == MenuChildWiringView::<T, F>::initial(),
    {
        let w = MenuChildWiring {
            next_item_index: 0,
            next_radio_group_index: 0,
            trigger: None,
            items: Vec::new(),
            group_labels: Vec::new(),
            focus_handles: Vec::new(),
            popup_focus_handle: None,
            checkbox_defaults: Vec::new(),
            radio_defaults: Vec::new(),
        };
        proof {
            assert(label_chars(w.group_labels@) =~= Seq::<Seq<char>>::empty());
        }
        w
    }

    /// Records the trigger; its focus handle, when it has one, joins the
    /// handles in source order.
    pub fn register_trigger(&mut self, trigger: T, focus_handle: Option<F>)
        ensures
            final(self)@ == wiring_step(old(self)@, MenuWiringStep::Trigger(trigger, focus_handle)),
            final(self)@ == (MenuChildWiringView {
                trigger: Some(trigger),
                focus_handles: with_handle(old(self)@.focus_handles, focus_handle),
                ..old(self)@
            }),
    {
        if let Some(handle) = focus_handle {
            self.focus_handles.push(handle);
        }
        self.trigger = Some(trigger);
    }

    /// Records an item and returns its index; the next index handed out is
    /// the one after it.
    pub fn register_item(&mut self, item: MenuItemMetadata, focus_handle: Option<F>) -> (index: usize)
        requires
            item@.index < usize::MAX,
        ensures
            index == item@.index,
            final(self)@ == wiring_step(old(self)@, MenuWiringStep::Item(item, focus_handle)),
            indices_dense(old(self)@) && item@.index == old(self)@.next_item_index ==> indices_dense(final(self)@),
            final(self)@ == (MenuChildWiringView {
                focus_handles: with_handle(old(self)@.focus_handles, focus_handle),
                ..old(self)@.after_register_item(item)
            }),
    {
        let ghost before = self@;
        proof {
            if indices_dense(before) && item@.index == before.next_item_index {
                law_wiring_keeps_item_indices_dense(before, item);
            }
        }
        let index = item.index();
        self.next_item_index = index + 1;
        if let Some(handle) = focus_handle {
            self.focus_handles.push(handle);
        }
        self.items.push(item);
        index
    }

    /// The index the next item takes.
    pub fn next_item_index(&self) -> (r: usize)
        ensures
            r == self@.next_item_index,
    {
        self.next_item_index
    }

    /// Hands out the next radio group index.
    pub fn next_radio_group_index(&mut self) -> (index: usize)
        requires
            old(self)@.next_radio_group_index < usize::MAX,
        ensures
            index == old(self)@.next_radio_group_index,
            final(self)@ == wiring_step(old(self)@, MenuWiringStep::<T, F>::RadioGroup),
            final(self)@ == (MenuChildWiringView {
                next_radio_group_index: (index + 1) as usize,
                ..old(self)@
            }),
    {
        let index = self.next_radio_group_index;
        self.next_radio_group_index = index + 1;
        index
    }

    /// Records a group label for accessibility naming.
    pub fn register_group_label(&mut self, label: String)
        ensures
            final(self)@ == wiring_step(old(self)@, MenuWiringStep::<T, F>::GroupLabel(label)),
            final(self)@ == (MenuChildWiringView {
                group_labels: old(self)@.group_labels.push(label@),
                ..old(self)@
            }),
    {
        let ghost before = self.group_labels@;
        self.group_labels.push(label);
        proof {
            assert(label_chars(self.group_labels@) =~= label_chars(before).push(label@));
        }
    }

    /// Records the popup's focus handle, which also joins the handles in
    /// source order.
    pub fn register_popup_focus_handle(&mut self, focus_handle: F) where F: Clone
        ensures
            final(self)@.focus_handles.len() == old(self)@.focus_handles.len() + 1,
            final(self)@.focus_handles.take(old(self)@.focus_handles.len() as int) == old(self)@.focus_handles,
            cloned(focus_handle, final(self)@.focus_handles.last()),
            final(self)@ == (MenuChildWiringView {
                focus_handles: final(self)@.focus_handles,
                popup_focus_handle: Some(focus_handle),
                ..old(self)@
            }),
    {
        self.focus_handles.push(focus_handle.clone());
        self.popup_focus_handle = Some(focus_handle);
    }

    /// Records a checkbox item's default checked state.
    pub fn register_checkbox_default(&mut self, index: usize, default_checked: bool)
        ensures
            final(self)@ == wiring_step(old(self)@, MenuWiringStep::<T, F>::CheckboxDefault(index, default_checked)),
            final(self)@ == (MenuChildWiringView {
                checkbox_defaults: old(self)@.checkbox_defaults.push((index, default_checked)),
                ..old(self)@
            }),
    {
        self.checkbox_defaults.push((index, default_checked));
    }

    /// Records a radio group's default selection.
    pub fn register_radio_default(&mut self, group_index: usize, selected_item: Option<usize>)
        ensures
            final(self)@ == wiring_step(old(self)@, MenuWiringStep::<T, F>::RadioDefault(group_index, selected_item)),
            final(self)@ == (MenuChildWiringView {
                radio_defaults: old(self)@.radio_defaults.push((group_index, selected_item)),
                ..old(self)@
            }),
    {
        self.radio_defaults.push((group_index, selected_item));
    }

    /// Ends the walk and hands over everything collected.
    pub fn finish(self) -> (wired: WiredMenuChildren<T, F>)
        ensures
            wired.trigger == self@.trigger,
            wired.items@ == self@.items,
            label_chars(wired.group_labels@) == self@.group_labels,
            wired.focus_handles@ == self@.focus_handles,
            wired.popup_focus_handle == self@.popup_focus_handle,
            wired.checkbox_defaults@ == self@.checkbox_defaults,
            wired.radio_defaults@ == self@.radio_defaults,
    {
        WiredMenuChildren {
            trigger: self.trigger,
            items: self.items,
            group_labels: self.group_labels,
            focus_handles: self.focus_handles,
            popup_focus_handle: self.popup_focus_handle,
            checkbox_defaults: self.checkbox_defaults,
            radio_defaults: self.radio_defaults,
        }
    }
}

} // verus!
