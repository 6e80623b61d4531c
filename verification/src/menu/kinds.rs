use vstd::prelude::*;

verus! {

/// Nanoseconds in one millisecond; every duration and instant in this crate
/// is a count of nanoseconds on the host's monotonic clock.
pub const NANOS_PER_MILLI: u64 = 1_000_000;

/// Post-open mouse-up grace window for Context Menu parents: a window
/// mouse-up before this deadline is the tail of the opening right-click and
/// is inert (500 ms, in nanoseconds).
pub const CONTEXT_MENU_GRACE: u64 = 500_000_000;

/// Idle time after which the typeahead buffer starts over (500 ms, in
/// nanoseconds).
pub const TYPEAHEAD_RESET_AFTER: u64 = 500_000_000;

/// Outcome of a window mouse-up observed while a Context Menu tree is open.
#[derive(Clone, Copy, Debug, PartialEq, Eq, Structural)]
pub enum MenuContextMenuMouseUp {
    /// Within the post-open grace window: the release of the opening gesture.
    InertGrace,
    /// Within one pixel of the initial cursor point (consumed on first check).
    SuppressedInitialPoint,
    /// Inside the open tree: item drag-release handling applies.
    InsideTree,
    /// Outside the open tree after the grace deadline: close with `CancelOpen`.
    CloseCancelOpen,
}

/// Why an open-state change was requested.
#[derive(Clone, Copy, Debug, Default, PartialEq, Eq, Structural)]
pub enum MenuOpenChangeReason {
    TriggerHover,
    TriggerFocus,
    TriggerPress,
    OutsidePress,
    FocusOut,
    ListNavigation,
    EscapeKey,
    ItemPress,
    ClosePress,
    SiblingOpen,
    CancelOpen,
    ImperativeAction,
    #[default]
    Unspecified,
}

/// Which input modality requested an open-state change.
#[derive(Clone, Copy, Debug, Default, PartialEq, Eq, Structural)]
pub enum MenuOpenChangeSource {
    Pointer,
    Touch,
    Keyboard,
    Focus,
    Imperative,
    Unknown,
    #[default]
    Unspecified,
}

/// Instant (non-transitioned) classification for the latest open transition.
#[derive(Clone, Copy, Debug, Default, PartialEq, Eq, Structural)]
pub enum MenuInstantKind {
    #[default]
    NotInstant,
    Click,
    Dismiss,
    TriggerChange,
    Group,
}

/// What kind of parent hosts a menu; fixed for the menu's lifetime.
#[derive(Clone, Copy, Debug, Default, PartialEq, Eq, Structural)]
pub enum MenuParentKind {
    #[default]
    NoParent,
    Submenu,
    Menubar,
    ContextMenu,
}

/// The kind of a registered menu item.
#[derive(Clone, Copy, Debug, PartialEq, Eq, Structural)]
pub enum MenuItemKind {
    Item,
    LinkItem,
    CheckboxItem,
    RadioItem,
    SubmenuTrigger,
}

/// A roving-highlight movement.
#[derive(Clone, Copy, Debug, PartialEq, Eq, Structural)]
pub enum MenuMove {
    Next,
    Previous,
    First,
    Last,
}

/// The transition a delayed trigger hover timer performs.
#[derive(Clone, Copy, Debug, PartialEq, Eq, Structural)]
pub enum MenuHoverTarget {
    Open,
    Close,
}

/// Result of feeding typed text to the typeahead buffer.
#[derive(Clone, Copy, Debug, PartialEq, Eq, Structural)]
pub enum MenuTypeaheadOutcome {
    Moved,
    NoMatch,
}

/// What the popup should do about the open child branch after a hover-driven
/// highlight change. `close_delay` is in nanoseconds.
#[derive(Clone, Copy, Debug, PartialEq, Eq, Structural)]
pub enum MenuChildHoverDirective {
    NoAction,
    CancelClose,
    ScheduleClose { item_index: usize, close_delay: u64, generation: u64 },
}

/// How long the pointer may rest inside the safe polygon before the open
/// branch closes anyway (nanoseconds).
pub const POLYGON_CLOSE_DELAY: u64 = 40_000_000;

/// The host's safe-polygon verdict on one pointer move toward an open
/// child branch.
#[derive(Clone, Copy, Debug, PartialEq, Eq, Structural)]
pub enum MenuPolygonVerdict {
    /// Still travelling inside the polygon.
    Inside,
    /// Left the polygon.
    Outside,
    /// Reached the child popup.
    LandedPopup,
    /// Came back to the branch's trigger.
    LandedTrigger,
}

/// What the popup does after a safe-polygon verdict. Delays are in
/// nanoseconds.
#[derive(Clone, Copy, Debug, PartialEq, Eq, Structural)]
pub enum MenuPolygonDirective {
    /// Start a delayed close of the branch; its timer presents `generation`.
    ScheduleClose { generation: u64, delay: u64 },
    /// Close the branch now if it is open.
    CloseBranch,
    /// Nothing further: any pending close was cancelled.
    Settled,
}

/// The generation counter after one more bump (wrapping at `u64::MAX`).
pub open spec fn next_generation(generation: u64) -> u64 {
    if generation == u64::MAX {
        0
    } else {
        (generation + 1) as u64
    }
}

/// Time elapsed from `earlier` to `later`, saturating at zero when `later`
/// precedes `earlier`.
pub open spec fn elapsed(later: u64, earlier: u64) -> u64 {
    if later >= earlier {
        (later - earlier) as u64
    } else {
        0
    }
}

/// Bumps a generation counter, wrapping at `u64::MAX`.
pub fn bump_generation(generation: u64) -> (next: u64)
    ensures
        next == next_generation(generation),
{
    generation.wrapping_add(1)
}

/// Time elapsed from `earlier` to `later`, saturating at zero.
pub fn elapsed_between(later: u64, earlier: u64) -> (d: u64)
    ensures
        d == elapsed(later, earlier),
{
    later.saturating_sub(earlier)
}

} // verus!
