//! Live keyboard visualiser: key identities, the per-key state machine driven
//! by key and control events, and the layout arithmetic that places a keyboard
//! form factor in a terminal.

pub mod control;
pub mod generic_backend;
pub mod key;
pub mod layout;
pub mod linux;
pub mod menu;
pub mod model;
