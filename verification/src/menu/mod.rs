pub mod props;
pub mod kinds;
pub mod text;
pub mod details;
pub mod style_state;
pub mod runtime;
pub mod laws;
pub mod decisions;
pub mod wiring;

pub use props::{MenuAlign, MenuOrientation, MenuProps, MenuSide};
pub use kinds::{
    MenuChildHoverDirective, MenuContextMenuMouseUp, MenuHoverTarget, MenuInstantKind,
    MenuItemKind, MenuMove, MenuOpenChangeReason, MenuOpenChangeSource, MenuParentKind,
    MenuPolygonDirective, MenuPolygonVerdict, MenuTypeaheadOutcome, CONTEXT_MENU_GRACE,
    NANOS_PER_MILLI, POLYGON_CLOSE_DELAY, TYPEAHEAD_RESET_AFTER,
};
pub use details::{
    MenuItemChangeDetails, MenuItemMetadata, MenuOpenChangeDetails, MenuOpenChangeOutcome,
    MenuSubmenuLink, MenuTriggerMetadata,
};
pub use runtime::MenuRuntime;
pub use wiring::{MenuChildWiring, WiredMenuChildren};
pub use style_state::{
    MenuBackdropStyleState, MenuCheckboxItemIndicatorStyleState, MenuCheckboxItemStyleState,
    MenuGroupLabelStyleState, MenuGroupStyleState, MenuItemStyleState, MenuLinkItemStyleState,
    MenuPopupStyleState, MenuPortalStyleState, MenuPositionerStyleState, MenuRadioGroupStyleState,
    MenuRadioItemIndicatorStyleState, MenuRadioItemStyleState, MenuRootStyleState,
    MenuSubmenuTriggerStyleState, MenuTriggerStyleState,
};
