//! sequencer_engine — musical-time core of a MIDI step sequencer.
//!
//! The session model, the step algorithms, the clipboards and the undo store,
//! the pattern scheduler, the MIDI dispatch math, the host-render event queue,
//! the command interpreter, and the editor's mirror of engine state with what
//! its gestures and sheets decide, each with its contract.

pub mod models;
pub mod clock;
pub mod midi_out;
pub mod channels;
pub mod midi;
pub mod scheduler;
pub mod host;
pub mod undo;
pub mod clipboard;
pub mod algorithms;
pub mod serde_ext;
pub mod command;
pub mod event;
pub mod engine;
pub mod editor;
pub mod link;
