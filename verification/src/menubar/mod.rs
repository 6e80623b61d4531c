pub mod props;
pub mod runtime;
pub mod style_state;
pub mod laws;
pub mod wiring;

pub use props::{MenubarOrientation, MenubarProps};
pub use runtime::{MenubarMove, MenubarRuntime, MenubarTriggerSlot};
pub use style_state::MenubarStyleState;
pub use wiring::wire_trigger_slots;
