//! Step algorithms (Roll, Vary). Neither alters `length`, `midi_note` or
//! `speed_ratio`; the engine pushes an undo snapshot before either runs.

pub mod roll;
pub mod vary;
pub mod strength;
