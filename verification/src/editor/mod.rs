//! The editor's state and the decisions it takes without drawing anything:
//! the mirror of engine state, the helpers the widgets read, what gestures
//! send, and which sheet or popover is open.

pub mod ui_state;
pub mod widgets;
pub mod sync;
pub mod gestures;
pub mod overlays;
