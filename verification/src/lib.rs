//! Headless menu and menubar state machines for a component library built on
//! GPUI: open/close bookkeeping, roving highlight, typeahead, hover timers,
//! submenu branch tracking, and the style-state facts every menu part reads.
//!
//! Everything here works on plain values. Geometry (pixels), focus handles,
//! element identifiers and callbacks are owned by the host UI layer, which
//! hands this crate the facts it decides on and carries its own values
//! alongside through the generic parameters.

pub mod direction;
pub mod menu;
pub mod menubar;


pub use menu::{MenuAlign, MenuOrientation, MenuProps, MenuSide};

