//! Commands from the shell to the engine.

use vstd::prelude::*;
use crate::algorithms::strength::Strength;
use crate::models::{FollowAction, QuantizeGrain, Ratchet, SyncSource, VelocityZone};
use crate::serde_ext::SessionEnvelope;

verus! {

/// A command. Tempo, swing and humanize amounts travel as `f32`/`f64` bit
/// patterns; Roll and Vary carry their strength both as bits and in the
/// integer form the algorithms read; a session to load arrives decoded (or
/// `None` when its bytes did not decode).
pub enum Command {
    SetStep { track_idx: usize, step_idx: usize, zone: VelocityZone },
    DeleteStep { track_idx: usize, step_idx: usize },
    SetRatchet { track_idx: usize, step_idx: usize, ratchet: Ratchet },
    SetTrackLength { track_idx: usize, length: usize },
    SetTrackMuted { track_idx: usize, muted: bool },
    SetTrackNote { track_idx: usize, midi_note: u8 },
    SetTrackSpeedRatio { track_idx: usize, ratio: u32 },
    SetTrackSwing { track_idx: usize, swing_pct: u32 },
    AddTrack,
    RemoveTrack,
    Roll { track_idx: usize, strength_bits: u32, strength: Strength },
    Vary { track_idx: usize, strength_bits: u32, strength: Strength },
    Cut { track_idx: usize },
    Copy { track_idx: usize },
    Paste { track_idx: usize },
    Trash { track_idx: usize },
    Undo { track_idx: usize },
    CopyPattern { index: usize },
    CutPattern { index: usize },
    PastePattern { index: usize },
    ClearPattern { index: usize },
    UndoPattern { index: usize },
    QueuePattern { index: usize, quantize: QuantizeGrain },
    CancelQueuedPattern,
    RetriggerPattern { quantize: QuantizeGrain },
    SetGlobalSwing { pct: u32 },
    SetHumanize { timing: u32, velocity: u32 },
    SetBpm { bpm: u64 },
    SetSyncSource { source: SyncSource },
    SetLinkEnabled { enabled: bool },
    SetQuantizeGrain { grain: QuantizeGrain },
    SetFollowAction { pattern_idx: usize, action: FollowAction },
    SetMidiDestinations { endpoints: Vec<u32> },
    SetGlobalMidiChannel { channel: u8 },
    Play,
    Stop,
    RequestFullSnapshot,
    Serialize,
    LoadSession { envelope: Option<SessionEnvelope> },
    LinkPhase { beats_since_origin: u64, phase: u64 },
    MidiClockTick,
}

} // verus!
