use sequencer_engine::command::Command;
use sequencer_engine::editor::ui_state::{EngineError, UiState};
use sequencer_engine::editor::widgets::{
    action_to_draft, add_enabled, cell_state, click_intent, drum_name, grain_label, next_grain, next_pattern_index,
    queue_pattern_command, ratchet_label, ratchet_repeats, remove_enabled, resolve_action, state_label, sync_label,
    transport_action, ActionDraft, AppMode, CellState, ClickIntent, Radius, Zoom,
};
use sequencer_engine::engine::{Effect, Engine};
use sequencer_engine::event::EngineEvent;
use sequencer_engine::models::{
    FollowAction, FollowActionType, Pattern, QuantizeGrain, Ratchet, Session, Step, SyncSource, Track, VelocityZone,
    PATTERN_SLOTS,
};

fn state_with_session() -> UiState {
    UiState { session: Some(Session::default()), ..Default::default() }
}

fn track(st: &UiState, idx: usize) -> &Track {
    st.session.as_ref().unwrap().patterns[0].as_ref().unwrap().tracks.get(idx).expect("track exists")
}

fn bpm(st: &UiState) -> f64 {
    f64::from_bits(st.session.as_ref().unwrap().bpm)
}

#[test]
fn apply_step_changed_mutates_step() {
    let mut st = state_with_session();
    let step = Step {
        active: true,
        velocity_zone: VelocityZone::Accent,
        micro_timing_offset: 0.05f32.to_bits(),
        ratchet: Ratchet::X2,
    };
    st.apply(&EngineEvent::StepChanged { track_idx: 1, step_idx: 3, step });
    assert_eq!(track(&st, 1).steps[3], step);
    assert!(!track(&st, 1).steps[4].active);
}

#[test]
fn apply_track_fields_mutate() {
    let mut st = state_with_session();
    st.apply(&EngineEvent::TrackLengthChanged { track_idx: 0, length: 8 });
    st.apply(&EngineEvent::TrackMutedChanged { track_idx: 2, muted: true });
    assert_eq!(track(&st, 0).length, 8);
    assert!(track(&st, 2).muted);
}

#[test]
fn apply_track_add_remove() {
    let mut st = state_with_session();
    let new_track = Track::with_note(46);
    st.apply(&EngineEvent::TrackAdded { track_idx: 99, track: new_track });
    assert_eq!(track(&st, 4).midi_note, 46);
    st.apply(&EngineEvent::TrackRemoved { track_idx: 0 });
    assert_eq!(track(&st, 0).midi_note, 38);
}

#[test]
fn apply_pattern_queue_switch_clear() {
    let mut st = state_with_session();
    st.apply(&EngineEvent::PatternQueued { index: 2, quantize: QuantizeGrain::NextBeat });
    assert_eq!(st.queued_pattern, Some(2));
    assert_eq!(st.queued_pattern_quantize, Some(QuantizeGrain::NextBeat));

    st.apply_playhead(1, 5);
    st.undo_available.insert(3);
    st.apply(&EngineEvent::PatternSwitched { index: 1 });
    assert_eq!(st.session.as_ref().unwrap().active_pattern_index, 1);
    assert_eq!(st.queued_pattern, None);
    assert_eq!(st.queued_pattern_quantize, None);
    assert_eq!(st.pattern_loop_count, 0);
    assert!(st.playheads.is_empty());
    assert!(st.undo_available.is_empty());

    st.apply(&EngineEvent::PatternQueued { index: 1, quantize: QuantizeGrain::NextBar });
    st.apply(&EngineEvent::PatternCleared { index: 1 });
    assert!(st.session.as_ref().unwrap().patterns[1].is_none());
    assert_eq!(st.queued_pattern, None);
}

#[test]
fn apply_transport_and_globals() {
    let mut st = state_with_session();
    st.pattern_loop_count = 7;
    st.apply(&EngineEvent::PlayStateChanged { playing: true });
    assert!(st.playing);
    assert_eq!(st.pattern_loop_count, 7);
    st.apply(&EngineEvent::BpmChanged { bpm: 140.0f64.to_bits() });
    assert_eq!(bpm(&st), 140.0);
    st.apply(&EngineEvent::SyncSourceChanged { source: SyncSource::Link });
    assert_eq!(st.session.as_ref().unwrap().sync_source, SyncSource::Link);
    assert!(st.link_enabled);
    st.apply(&EngineEvent::SyncSourceChanged { source: SyncSource::MidiClock });
    assert!(!st.link_enabled);
    st.apply(&EngineEvent::PlayStateChanged { playing: false });
    assert!(!st.playing);
    assert_eq!(st.pattern_loop_count, 0);
}

#[test]
fn apply_playhead_coalesces_last_wins() {
    let mut st = state_with_session();
    st.apply_playhead(0, 3);
    st.apply_playhead(0, 7);
    st.apply_playhead(2, 11);
    assert_eq!(st.playheads.get(&0).copied(), Some(7));
    assert_eq!(st.playheads.get(&2).copied(), Some(11));
    assert_eq!(st.playheads.len(), 2);
}

#[test]
fn apply_full_snapshot_replaces_and_resets() {
    let mut st = state_with_session();
    st.queued_pattern = Some(3);
    st.pattern_loop_count = 9;
    st.playheads.insert(0, 4);
    st.undo_available.insert(1);
    st.last_error = Some(EngineError { code: 5, message: "x".into() });
    st.last_overflow = Some(2);
    let snap = Session { bpm: 99.0f64.to_bits(), ..Default::default() };
    st.apply(&EngineEvent::FullSnapshot { session: snap });
    assert_eq!(bpm(&st), 99.0);
    assert_eq!(st.queued_pattern, None);
    assert_eq!(st.queued_pattern_quantize, None);
    assert_eq!(st.pattern_loop_count, 0);
    assert!(st.playheads.is_empty());
    assert!(st.undo_available.is_empty());
    assert!(st.last_error.is_none());
    assert!(st.last_overflow.is_none());
}

#[test]
fn apply_undo_error_overflow_link() {
    let mut st = state_with_session();
    st.apply(&EngineEvent::UndoAvailable { track_idx: 1, available: true });
    st.apply(&EngineEvent::UndoAvailable { track_idx: 4, available: true });
    st.apply(&EngineEvent::UndoAvailable { track_idx: 1, available: false });
    assert!(st.undo_available.contains(&4));
    assert!(!st.undo_available.contains(&1));
    st.apply(&EngineEvent::Error { code: -1, message: "boom".into() });
    assert_eq!(st.last_error, Some(EngineError { code: -1, message: "boom".into() }));
    st.apply(&EngineEvent::Overflow { dropped: 42 });
    assert_eq!(st.last_overflow, Some(42));
    st.apply(&EngineEvent::LinkPeersChanged { count: 3 });
    assert_eq!(st.link_peers, 3);
    st.apply(&EngineEvent::LinkEnabledChanged { enabled: true });
    assert!(st.link_enabled);
}

#[test]
fn apply_out_of_range_indices_dropped_safely() {
    let mut empty = UiState::default();
    empty.apply(&EngineEvent::StepChanged { track_idx: 0, step_idx: 0, step: Step::default() });
    assert!(empty.session.is_none());

    let mut st = state_with_session();
    st.apply(&EngineEvent::StepChanged { track_idx: 99, step_idx: 0, step: Step::default() });
    st.apply(&EngineEvent::StepChanged { track_idx: 0, step_idx: 99, step: Step::default() });
    st.apply(&EngineEvent::TrackRemoved { track_idx: 99 });
    st.apply(&EngineEvent::FollowActionChanged { pattern_idx: 99, action: FollowAction::default() });
    assert_eq!(track(&st, 0).midi_note, 36);

    st.session.as_mut().unwrap().active_pattern_index = 99;
    st.apply(&EngineEvent::TrackLengthChanged { track_idx: 0, length: 4 });
    assert_eq!(track(&st, 0).length, 16);
}

#[test]
fn apply_playhead_and_serialized_noop() {
    let mut st = state_with_session();
    st.apply(&EngineEvent::Playhead { track_idx: 0, step_idx: 2 });
    assert!(st.playheads.is_empty());
    let before = bpm(&st);
    st.apply(&EngineEvent::Serialized { bytes: vec![1, 2, 3] });
    assert_eq!(bpm(&st), before);
}

#[test]
fn apply_sequence_matches_session_mirror() {
    let mut st = state_with_session();
    st.apply(&EngineEvent::PlayStateChanged { playing: true });
    st.apply(&EngineEvent::BpmChanged { bpm: 130.0f64.to_bits() });
    st.apply(&EngineEvent::StepChanged {
        track_idx: 0,
        step_idx: 0,
        step: Step { active: true, velocity_zone: VelocityZone::Accent, ..Default::default() },
    });
    st.apply(&EngineEvent::StepChanged {
        track_idx: 0,
        step_idx: 4,
        step: Step { active: true, velocity_zone: VelocityZone::Mid, ..Default::default() },
    });
    st.apply(&EngineEvent::TrackMutedChanged { track_idx: 1, muted: true });
    st.apply(&EngineEvent::TrackLengthChanged { track_idx: 2, length: 8 });
    st.apply(&EngineEvent::PatternLoopCountChanged { count: 3 });
    st.apply(&EngineEvent::UndoAvailable { track_idx: 0, available: true });
    st.apply_playhead(0, 4);
    st.apply_playhead(1, 4);
    st.apply(&EngineEvent::LinkPeersChanged { count: 5 });

    assert!(st.playing);
    assert_eq!(bpm(&st), 130.0);
    let t0 = track(&st, 0);
    assert!(t0.steps[0].active);
    assert_eq!(t0.steps[0].velocity_zone, VelocityZone::Accent);
    assert!(t0.steps[4].active);
    assert_eq!(t0.steps[4].velocity_zone, VelocityZone::Mid);
    assert!(!t0.steps[1].active);
    assert!(track(&st, 1).muted);
    assert_eq!(track(&st, 2).length, 8);
    assert_eq!(st.pattern_loop_count, 3);
    assert!(st.undo_available.contains(&0));
    assert_eq!(st.playheads.get(&0).copied(), Some(4));
    assert_eq!(st.playheads.get(&1).copied(), Some(4));
    assert_eq!(st.link_peers, 5);
}

/// Feed the mirror every event among the engine's effects, in order.
fn feed(st: &mut UiState, fx: &[Effect]) {
    for f in fx {
        match f {
            Effect::Hot(ev) | Effect::Large(ev) => st.apply(ev),
            _ => {}
        }
    }
}

#[test]
fn mirror_follows_engine_through_an_edit_session() {
    let mut e = Engine::new();
    let mut st = UiState::default();
    let fx = e.apply_command(Command::RequestFullSnapshot);
    feed(&mut st, &fx);
    let cmds = vec![
        Command::SetStep { track_idx: 0, step_idx: 2, zone: VelocityZone::Accent },
        Command::SetRatchet { track_idx: 0, step_idx: 2, ratchet: Ratchet::X3 },
        Command::SetTrackLength { track_idx: 1, length: 7 },
        Command::SetTrackMuted { track_idx: 2, muted: true },
        Command::AddTrack,
        Command::SetTrackNote { track_idx: 4, midi_note: 51 },
        Command::Trash { track_idx: 0 },
        Command::Undo { track_idx: 0 },
        Command::RemoveTrack,
        Command::SetFollowAction {
            pattern_idx: 0,
            action: FollowAction { after_loops: 2, action: FollowActionType::PlayNext },
        },
        Command::CopyPattern { index: 0 },
        Command::PastePattern { index: 3 },
        Command::SetBpm { bpm: 133.0f64.to_bits() },
        Command::SetSyncSource { source: SyncSource::MidiClock },
        Command::ClearPattern { index: 0 },
        Command::UndoPattern { index: 0 },
    ];
    for c in cmds {
        let fx = e.apply_command(c);
        feed(&mut st, &fx);
        assert_eq!(st.session.as_ref(), Some(&e.snapshot));
    }
}

#[test]
fn ui_accessors_default_before_first_session() {
    let st = UiState::new();
    assert_eq!(f64::from_bits(st.bpm()), 120.0);
    assert_eq!(st.sync_source(), SyncSource::Free);
    assert_eq!(f32::from_bits(st.swing_pct()), 0.0);
    assert_eq!(f32::from_bits(st.humanize_timing()), 0.0);
    assert_eq!(f32::from_bits(st.humanize_velocity()), 0.0);
    assert_eq!(st.active_pattern_index(), 0);
    assert!(st.active_pattern().is_none());
    assert!(st.tracks().is_empty());
}

#[test]
fn uistate_feel_accessors() {
    let mut s = Session::default();
    s.global_swing_pct = 0.25f32.to_bits();
    s.humanize_timing = 0.5f32.to_bits();
    s.humanize_velocity = 0.75f32.to_bits();
    s.active_pattern_index = 3;
    let st = UiState { session: Some(s), ..Default::default() };
    assert_eq!(f32::from_bits(st.swing_pct()), 0.25);
    assert_eq!(f32::from_bits(st.humanize_timing()), 0.5);
    assert_eq!(f32::from_bits(st.humanize_velocity()), 0.75);
    assert_eq!(st.active_pattern_index(), 3);
}

#[test]
fn uistate_bpm_sync_accessors() {
    let mut s = Session::default();
    s.bpm = 98.5f64.to_bits();
    s.sync_source = SyncSource::Link;
    let st = UiState { session: Some(s), ..Default::default() };
    assert_eq!(f64::from_bits(st.bpm()), 98.5);
    assert_eq!(st.sync_source(), SyncSource::Link);
}

#[test]
fn uistate_tracks_count() {
    let st = state_with_session();
    assert_eq!(st.tracks().len(), 4);
    let mut st2 = state_with_session();
    st2.session.as_mut().unwrap().patterns[0] = None;
    assert!(st2.tracks().is_empty());
}

#[test]
fn drum_name_falls_back_to_note() {
    assert_eq!(drum_name(36), "Kick");
    assert_eq!(drum_name(38), "Snare");
    assert_eq!(drum_name(42), "Closed Hat");
    assert_eq!(drum_name(12), "Note");
}

#[test]
fn ratchet_repeats_map() {
    assert_eq!(ratchet_repeats(Ratchet::Off), 0);
    assert_eq!(ratchet_repeats(Ratchet::X2), 2);
    assert_eq!(ratchet_repeats(Ratchet::X3), 3);
    assert_eq!(ratchet_repeats(Ratchet::X4), 4);
    assert_eq!(ratchet_label(Ratchet::X3), "×3");
    assert_eq!(ratchet_label(Ratchet::Off), "Off");
}

#[test]
fn click_intent_cycles_zone() {
    assert_eq!(click_intent(false, VelocityZone::Accent), ClickIntent::Place(VelocityZone::Mid));
    assert_eq!(click_intent(true, VelocityZone::Mid), ClickIntent::Place(VelocityZone::Accent));
    assert_eq!(click_intent(true, VelocityZone::Accent), ClickIntent::Place(VelocityZone::Low));
    assert_eq!(click_intent(true, VelocityZone::Low), ClickIntent::Delete);
}

#[test]
fn cell_state_precedence() {
    assert_eq!(cell_state(0, 0, Some(0), true), CellState::Queued);
    assert_eq!(cell_state(0, 0, None, true), CellState::Playing);
    assert_eq!(cell_state(0, 0, None, false), CellState::Playing);
    assert_eq!(cell_state(1, 0, None, true), CellState::Filled);
    assert_eq!(cell_state(1, 0, Some(1), false), CellState::Queued);
    assert_eq!(cell_state(1, 0, None, false), CellState::Empty);
    assert_eq!(state_label(CellState::Queued), "QUEUED");
    assert_eq!(state_label(CellState::Empty), "EMPTY");
}

fn make_patterns(n: usize) -> [Option<Pattern>; PATTERN_SLOTS] {
    let mut p: [Option<Pattern>; PATTERN_SLOTS] = Default::default();
    for slot in p.iter_mut().take(n) {
        *slot = Some(Pattern::default());
    }
    p
}

#[test]
fn next_pattern_index_all_variants() {
    let p = make_patterns(9);
    assert_eq!(next_pattern_index(&p, 0, &FollowActionType::NoAction), None);
    assert_eq!(next_pattern_index(&p, 0, &FollowActionType::Stop), None);
    assert_eq!(next_pattern_index(&p, 0, &FollowActionType::PlayRandom), None);
    assert_eq!(next_pattern_index(&p, 0, &FollowActionType::PlayNext), Some(1));
    assert_eq!(next_pattern_index(&p, 5, &FollowActionType::PlayNext), Some(6));
    assert_eq!(next_pattern_index(&p, 8, &FollowActionType::PlayNext), Some(0));
    assert_eq!(next_pattern_index(&p, 0, &FollowActionType::PlayPrevious), Some(8));
    assert_eq!(next_pattern_index(&p, 4, &FollowActionType::PlayPrevious), Some(3));
    let id = p[6].as_ref().unwrap().id;
    assert_eq!(next_pattern_index(&p, 0, &FollowActionType::PlaySpecific(id)), Some(6));
    assert_eq!(next_pattern_index(&p, 0, &FollowActionType::PlaySpecific(0)), None);
}

#[test]
fn next_pattern_index_wraps_over_all_slots_engine_aligned() {
    let p = make_patterns(2);
    assert_eq!(next_pattern_index(&p, 1, &FollowActionType::PlayNext), Some(2));
    assert_eq!(next_pattern_index(&p, 0, &FollowActionType::PlayPrevious), Some(8));
}

#[test]
fn transport_action_toggles() {
    assert!(matches!(transport_action(false), Command::Play));
    assert!(matches!(transport_action(true), Command::Stop));
}

#[test]
fn queue_pattern_hardcodes_next_bar() {
    assert!(matches!(
        queue_pattern_command(4),
        Command::QueuePattern { index: 4, quantize: QuantizeGrain::NextBar }
    ));
}

#[test]
fn grain_label_and_cycle() {
    assert_eq!(grain_label(QuantizeGrain::NextStep), "Step");
    assert_eq!(grain_label(QuantizeGrain::NextBeat), "Beat");
    assert_eq!(grain_label(QuantizeGrain::NextBar), "Bar");
    assert_eq!(grain_label(QuantizeGrain::EndOfPattern), "Pat");
    let mut g = QuantizeGrain::NextStep;
    for expected in [QuantizeGrain::NextBeat, QuantizeGrain::NextBar, QuantizeGrain::EndOfPattern, QuantizeGrain::NextStep] {
        g = next_grain(g);
        assert_eq!(g, expected);
    }
}

#[test]
fn sync_label_variants() {
    assert_eq!(sync_label(SyncSource::Free), "Free");
    assert_eq!(sync_label(SyncSource::MidiClock), "MIDI");
    assert_eq!(sync_label(SyncSource::Link), "Link");
}

#[test]
fn add_remove_enabled_bounds() {
    assert!(add_enabled(4) && add_enabled(7));
    assert!(!add_enabled(8));
    assert!(!remove_enabled(4));
    assert!(remove_enabled(5) && remove_enabled(8));
}

#[test]
fn resolve_action_all_drafts() {
    let p = make_patterns(9);
    assert_eq!(resolve_action(ActionDraft::NoAction, 0, &p), FollowActionType::NoAction);
    assert_eq!(resolve_action(ActionDraft::PlayNext, 0, &p), FollowActionType::PlayNext);
    assert_eq!(resolve_action(ActionDraft::PlayPrevious, 0, &p), FollowActionType::PlayPrevious);
    assert_eq!(resolve_action(ActionDraft::Stop, 0, &p), FollowActionType::Stop);
    assert_eq!(resolve_action(ActionDraft::PlayRandom, 0, &p), FollowActionType::PlayRandom);
    let id = p[3].as_ref().unwrap().id;
    assert_eq!(resolve_action(ActionDraft::PlaySpecific, 3, &p), FollowActionType::PlaySpecific(id));
}

#[test]
fn action_to_draft_round_trip_play_specific() {
    let p = make_patterns(9);
    let id = p[5].as_ref().unwrap().id;
    let (d, t) = action_to_draft(&FollowActionType::PlaySpecific(id), &p);
    assert_eq!((d, t), (ActionDraft::PlaySpecific, 5));
    assert_eq!(resolve_action(d, t, &p), FollowActionType::PlaySpecific(id));
}

#[test]
fn action_to_draft_play_specific_unknown_id_is_sentinel() {
    let p = make_patterns(9);
    assert_eq!(action_to_draft(&FollowActionType::PlaySpecific(7), &p), (ActionDraft::PlaySpecific, PATTERN_SLOTS));
}

#[test]
fn resolve_action_play_specific_sentinel_is_none() {
    let p = make_patterns(9);
    assert_eq!(resolve_action(ActionDraft::PlaySpecific, PATTERN_SLOTS, &p), FollowActionType::NoAction);
}

#[test]
fn resolve_action_play_specific_empty_slot_is_none() {
    let p = make_patterns(2);
    assert_eq!(resolve_action(ActionDraft::PlaySpecific, 5, &p), FollowActionType::NoAction);
}

#[test]
fn widget_defaults_and_theme_radii() {
    assert_eq!(Zoom::default(), Zoom::Sixteen);
    assert_eq!(AppMode::default(), AppMode::Editing);
    assert_eq!(ActionDraft::default(), ActionDraft::NoAction);
    assert_eq!(Radius::SM, 4);
    assert_eq!(Radius::MD, 6);
    assert_eq!(Radius::LG, 8);
}
