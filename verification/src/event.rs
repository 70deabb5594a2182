//! Events from the engine to the shell.

use vstd::prelude::*;
use crate::models::{FollowAction, QuantizeGrain, Session, Step, SyncSource, Track};

verus! {

/// An event. `BpmChanged` carries the tempo's `f64` bit pattern.
#[derive(Clone, Debug, PartialEq)]
pub enum EngineEvent {
    StepChanged { track_idx: usize, step_idx: usize, step: Step },
    TrackLengthChanged { track_idx: usize, length: usize },
    TrackMutedChanged { track_idx: usize, muted: bool },
    TrackAdded { track_idx: usize, track: Track },
    TrackRemoved { track_idx: usize },
    PatternQueued { index: usize, quantize: QuantizeGrain },
    PatternSwitched { index: usize },
    PatternCleared { index: usize },
    PatternLoopCountChanged { count: u32 },
    FollowActionChanged { pattern_idx: usize, action: FollowAction },
    Playhead { track_idx: usize, step_idx: usize },
    PlayStateChanged { playing: bool },
    BpmChanged { bpm: u64 },
    SyncSourceChanged { source: SyncSource },
    LinkEnabledChanged { enabled: bool },
    LinkPeersChanged { count: usize },
    UndoAvailable { track_idx: usize, available: bool },
    FullSnapshot { session: Session },
    Serialized { bytes: Vec<u8> },
    Error { code: i32, message: String },
    Overflow { dropped: u32 },
}

} // verus!
