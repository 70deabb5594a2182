//! What a gesture on the step grid, a track header, the track bar or the
//! pattern launcher sends to the engine. Reading the pointer is the shell's
//! part; it hands over what was hit and how.

use vstd::prelude::*;
use crate::command::Command;
use crate::editor::ui_state::UiState;
use crate::editor::widgets::{
    add_enabled, cell_state, cell_state_of, click_cycle, click_intent, remove_enabled, CellState, ClickIntent,
};
use crate::models::{QuantizeGrain, Track, VelocityZone, MAX_TRACKS, MIN_TRACKS, PATTERN_SLOTS};

verus! {

broadcast use vstd::std_specs::hash::group_hash_axioms;

/// A plain left click on step `step_idx` of a track follows the click cycle;
/// the cycle's delete does nothing beyond the track's length, where placing
/// still works.
pub fn cell_click_command(track_idx: usize, step_idx: usize, track: &Track) -> (c: Option<Command>)
    requires
        step_idx < 16,
    ensures
        c == match click_cycle(track.steps@[step_idx as int].active, track.steps@[step_idx as int].velocity_zone) {
            ClickIntent::Place(zone) => Some(Command::SetStep { track_idx, step_idx, zone }),
            ClickIntent::Delete => if step_idx < track.length {
                Some(Command::DeleteStep { track_idx, step_idx })
            } else {
                None
            },
        },
{
    let step = track.steps[step_idx];
    match click_intent(step.active, step.velocity_zone) {
        ClickIntent::Place(zone) => Some(Command::SetStep { track_idx, step_idx, zone }),
        ClickIntent::Delete => {
            if step_idx < track.length {
                Some(Command::DeleteStep { track_idx, step_idx })
            } else {
                None
            }
        },
    }
}

/// A right click deletes the step, within the track's length only.
pub fn cell_secondary_click_command(track_idx: usize, step_idx: usize, track: &Track) -> (c: Option<Command>)
    ensures
        c == (if step_idx < track.length { Some(Command::DeleteStep { track_idx, step_idx }) } else { None }),
{
    if step_idx < track.length {
        Some(Command::DeleteStep { track_idx, step_idx })
    } else {
        None
    }
}

/// A finished vertical drag re-zones a filled step within the track's length
/// to the zone the drag points to (`zone`: Accent upward, Low downward, none
/// for a drag too short to count).
pub fn cell_drag_command(track_idx: usize, step_idx: usize, track: &Track, zone: Option<VelocityZone>) -> (c: Option<Command>)
    requires
        step_idx < 16,
    ensures
        c == (if track.steps@[step_idx as int].active && step_idx < track.length {
            match zone {
                Some(z) => Some(Command::SetStep { track_idx, step_idx, zone: z }),
                None => None,
            }
        } else {
            None
        }),
{
    if track.steps[step_idx].active && step_idx < track.length {
        match zone {
            Some(z) => Some(Command::SetStep { track_idx, step_idx, zone: z }),
            None => None,
        }
    } else {
        None
    }
}

/// A track's mute button flips the track's mute.
pub fn mute_toggle_command(track_idx: usize, muted: bool) -> (c: Command)
    ensures
        c == (Command::SetTrackMuted { track_idx, muted: !muted }),
{
    Command::SetTrackMuted { track_idx, muted: !muted }
}

/// The state launcher cell `idx` shows for the mirror: none without a
/// session; otherwise by the active slot, the queued slot and whether the
/// slot holds a pattern.
pub fn launcher_cell_state(state: &UiState, idx: usize) -> (c: Option<CellState>)
    requires
        idx < PATTERN_SLOTS,
    ensures
        c == match state.session {
            Some(s) => Some(cell_state_of(idx, s.active_pattern_index, state.queued_pattern, s.patterns@[idx as int] is Some)),
            None => None,
        },
{
    match &state.session {
        Some(s) => {
            let filled = match &s.patterns[idx] {
                Some(_) => true,
                None => false,
            };
            Some(cell_state(idx, s.active_pattern_index, state.queued_pattern, filled))
        },
        None => None,
    }
}

/// A click on launcher cell `idx`: the playing pattern retriggers on the next
/// beat, a queued one is cancelled, a filled one is queued at `grain`, an
/// empty one does nothing.
pub fn pattern_cell_command(st: CellState, idx: usize, grain: QuantizeGrain) -> (c: Option<Command>)
    ensures
        c == match st {
            CellState::Playing => Some(Command::RetriggerPattern { quantize: QuantizeGrain::NextBeat }),
            CellState::Queued => Some(Command::CancelQueuedPattern),
            CellState::Filled => Some(Command::QueuePattern { index: idx, quantize: grain }),
            CellState::Empty => None,
        },
{
    match st {
        CellState::Playing => Some(Command::RetriggerPattern { quantize: QuantizeGrain::NextBeat }),
        CellState::Queued => Some(Command::CancelQueuedPattern),
        CellState::Filled => Some(Command::QueuePattern { index: idx, quantize: grain }),
        CellState::Empty => None,
    }
}

/// A right click on the playing cell retriggers it on the next step; on any
/// other cell it does nothing.
pub fn pattern_cell_secondary_command(st: CellState) -> (c: Option<Command>)
    ensures
        c == (if st == CellState::Playing {
            Some(Command::RetriggerPattern { quantize: QuantizeGrain::NextStep })
        } else {
            None
        }),
{
    if st == CellState::Playing {
        Some(Command::RetriggerPattern { quantize: QuantizeGrain::NextStep })
    } else {
        None
    }
}

/// The playhead the launcher reads for track `track_idx`: the latest one
/// recorded, 0 before any.
pub open spec fn led_playhead(state: UiState, track_idx: usize) -> usize {
    if state.playheads@.contains_key(track_idx) {
        state.playheads@[track_idx]
    } else {
        0
    }
}

/// A track's activity light is lit while playing when the track's playhead
/// is on an active step.
pub fn track_led_lit(state: &UiState, track_idx: usize, track: &Track) -> (b: bool)
    ensures
        b == (state.playing && led_playhead(*state, track_idx) < 16
            && track.steps@[led_playhead(*state, track_idx) as int].active),
{
    let playhead: usize = match state.playheads.get(&track_idx) {
        Some(p) => *p,
        None => 0,
    };
    state.playing && playhead < 16 && track.steps[playhead].active
}

/// The add button of the track bar adds a track below the limit; at the
/// limit it is disabled and sends nothing.
pub fn add_track_command(len: usize) -> (c: Option<Command>)
    ensures
        c == (if len < MAX_TRACKS { Some(Command::AddTrack) } else { None }),
{
    if add_enabled(len) {
        Some(Command::AddTrack)
    } else {
        None
    }
}

/// The remove button removes a track above the minimum; at the minimum it is
/// disabled and sends nothing.
pub fn remove_track_command(len: usize) -> (c: Option<Command>)
    ensures
        c == (if len > MIN_TRACKS { Some(Command::RemoveTrack) } else { None }),
{
    if remove_enabled(len) {
        Some(Command::RemoveTrack)
    } else {
        None
    }
}

} // verus!
