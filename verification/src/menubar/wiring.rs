//! Walking a menubar's children: hosted menus take trigger indices in source
//! order, other children take none, and a menu's slot is disabled when the
//! menubar or the menu itself is.
use vstd::prelude::*;

use crate::menubar::runtime::{MenubarTriggerSlot, MenubarTriggerSlotView};

verus! {

/// How many of the children are hosted menus. A child is `Some(disabled)`
/// for a hosted menu and `None` for any other element.
pub open spec fn count_menus(children: Seq<Option<bool>>) -> nat
    decreases children.len(),
{
    if children.len() == 0 {
        0
    } else {
        count_menus(children.drop_last()) + if children.last() is Some { 1nat } else { 0nat }
    }
}

/// The trigger index the child at `position` takes, if it is a hosted menu.
pub open spec fn trigger_index_of(children: Seq<Option<bool>>, position: int) -> Option<usize> {
    if children[position] is Some {
        Some(count_menus(children.take(position)) as usize)
    } else {
        None
    }
}

/// The fresh slot a hosted menu gets.
pub open spec fn wired_slot<F, C>(menubar_disabled: bool, menu_disabled: bool) -> MenubarTriggerSlotView<F, C> {
    MenubarTriggerSlotView {
        disabled: menubar_disabled || menu_disabled,
        focus_handle: None,
        open: None,
        close: None,
    }
}

proof fn lemma_count_step(children: Seq<Option<bool>>, j: int)
    requires
        0 <= j < children.len(),
    ensures
        count_menus(children.take(j + 1)) == count_menus(children.take(j)) + if children[j] is Some { 1nat } else { 0nat },
{
    assert(children.take(j + 1).drop_last() =~= children.take(j));
}

proof fn lemma_count_monotone(children: Seq<Option<bool>>, k: int, j: int)
    requires
        0 <= k <= j <= children.len(),
    ensures
        count_menus(children.take(k)) <= count_menus(children.take(j)),
    decreases j - k,
{
    if k < j {
        lemma_count_step(children, j - 1);
        lemma_count_monotone(children, k, j - 1);
    }
}

/// Assigns trigger slots to the hosted menus among `children`, returning the
/// slots and, per child, the trigger index it took.
pub fn wire_trigger_slots<F, C>(menubar_disabled: bool, children: &[Option<bool>]) -> (wired: (Vec<MenubarTriggerSlot<F, C>>, Vec<Option<usize>>))
    ensures
        wired.0@.len() == count_menus(children@),
        wired.1@.len() == children@.len(),
        forall|k: int| 0 <= k < children@.len() ==> #[trigger] wired.1@[k] == trigger_index_of(children@, k),
        forall|k: int|
            0 <= k < children@.len() && children@[k] is Some ==> (#[trigger] wired.0@[count_menus(children@.take(k)) as int])@
                == wired_slot::<F, C>(menubar_disabled, children@[k]->0),
{
    let mut slots: Vec<MenubarTriggerSlot<F, C>> = Vec::new();
    let mut indices: Vec<Option<usize>> = Vec::new();
    let mut j: usize = 0;
    while j < children.len()
        invariant
            j <= children@.len(),
            indices@.len() == j,
            slots@.len() == count_menus(children@.take(j as int)),
            forall|k: int| 0 <= k < j ==> #[trigger] indices@[k] == trigger_index_of(children@, k),
            forall|k: int|
                0 <= k < j && children@[k] is Some ==> (#[trigger] slots@[count_menus(children@.take(k)) as int])@
                    == wired_slot::<F, C>(menubar_disabled, children@[k]->0),
        decreases children@.len() - j,
    {
        proof {
            lemma_count_step(children@, j as int);
        }
        match children[j] {
            Some(menu_disabled) => {
                let index = slots.len();
                slots.push(MenubarTriggerSlot::new(menubar_disabled || menu_disabled));
                indices.push(Some(index));
                proof {
                    assert forall|k: int| 0 <= k < j + 1 && children@[k] is Some implies (#[trigger] slots@[count_menus(children@.take(k)) as int])@
                        == wired_slot::<F, C>(menubar_disabled, children@[k]->0) by {
                        if k < j {
                            lemma_count_step(children@, k);
                            lemma_count_monotone(children@, k + 1, j as int);
                        }
                    }
                }
            },
            None => {
                indices.push(None);
            },
        }
        j = j + 1;
    }
    proof {
        assert(children@.take(children@.len() as int) =~= children@);
    }
    (slots, indices)
}

} // verus!
