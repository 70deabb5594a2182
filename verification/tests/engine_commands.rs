use sequencer_engine::algorithms::strength::Strength;
use sequencer_engine::command::Command;
use sequencer_engine::engine::{clamp_bpm_bits, due_ticks, process, validate_session, Effect, Engine, RtState, TickParams};
use sequencer_engine::event::EngineEvent;
use sequencer_engine::midi_out::ring_dequeue;
use sequencer_engine::models::{
    FollowAction, FollowActionType, Pattern, QuantizeGrain, Session, Step, SyncSource, VelocityZone, MAX_TRACKS,
    PATTERN_SLOTS, STEP_COUNT,
};
use sequencer_engine::serde_ext::{SessionEnvelope, SESSION_FORMAT_VERSION};

fn hot(fx: &[Effect]) -> Vec<EngineEvent> {
    fx.iter()
        .filter_map(|e| match e {
            Effect::Hot(ev) => Some(ev.clone()),
            _ => None,
        })
        .collect()
}

fn large(fx: &[Effect]) -> Vec<EngineEvent> {
    fx.iter()
        .filter_map(|e| match e {
            Effect::Large(ev) => Some(ev.clone()),
            _ => None,
        })
        .collect()
}

fn bpm(s: &Session) -> f64 {
    f64::from_bits(s.bpm)
}

fn strength(s: f32) -> Strength {
    let s = s.clamp(0.0, 1.0);
    Strength {
        offset_bits: (-50i32..=50).map(|r| ((r as f32 / 100.0) * s).to_bits()).collect(),
        toggle_threshold: (s * 30.0) as i32,
        zone_threshold: (s * 40.0) as i32,
    }
}

fn flat_params() -> TickParams {
    TickParams {
        ratio_q: [0x1_0000; 8],
        swing_micros: [0; 8],
        micro_micros: [[0; 16]; 8],
        mag_accent: 0,
        mag_other: 0,
    }
}

#[test]
fn publish_then_snapshot_arc_round_trips() {
    let mut e = Engine::new();
    let s = Session { bpm: 140.0f64.to_bits(), ..Default::default() };
    e.publish(s);
    assert_eq!(bpm(e.snapshot_arc()), 140.0);
}

#[test]
fn begin_play_seeds_rng_deterministically() {
    let e = Engine::new();
    let mut a = RtState::new(1);
    let mut b = RtState::new(2);
    e.begin_play(&mut a);
    e.begin_play(&mut b);
    assert_eq!(a.rng.next_u32(), b.rng.next_u32());
}

#[test]
fn worker_applies_set_bpm_via_cow() {
    let mut e = Engine::new();
    let fx = e.apply_command(Command::SetBpm { bpm: 174.0f64.to_bits() });
    assert_eq!(bpm(e.snapshot_arc()), 174.0);
    assert_eq!(hot(&fx), vec![EngineEvent::BpmChanged { bpm: 174.0f64.to_bits() }]);
}

#[test]
fn set_bpm_clamps_to_sane_range() {
    let mut e = Engine::new();
    e.apply_command(Command::SetBpm { bpm: 1000.0f64.to_bits() });
    assert_eq!(bpm(e.snapshot_arc()), 400.0, "clamp high");
    e.apply_command(Command::SetBpm { bpm: 1.0f64.to_bits() });
    assert_eq!(bpm(e.snapshot_arc()), 20.0, "clamp low");
    e.apply_command(Command::SetBpm { bpm: 140.0f64.to_bits() });
    assert_eq!(bpm(e.snapshot_arc()), 140.0, "in-range unchanged");
}

#[test]
fn bpm_clamp_matches_float_clamp_on_edge_values() {
    for x in [
        -0.0f64, 0.0, -5.0, 19.999, 20.0, 20.000001, 399.9, 400.0, 400.5, 1e300,
        f64::INFINITY, f64::NEG_INFINITY, f64::MIN_POSITIVE, -f64::MIN_POSITIVE, 5e-324,
    ] {
        assert_eq!(clamp_bpm_bits(x.to_bits()), x.clamp(20.0, 400.0).to_bits(), "{x}");
    }
    assert!(f64::from_bits(clamp_bpm_bits(f64::NAN.to_bits())).is_nan());
    assert!(f64::from_bits(clamp_bpm_bits((-f64::NAN).to_bits())).is_nan());
}

#[test]
fn set_sync_source_link_enables_and_disables_session() {
    let mut e = Engine::new();
    e.apply_command(Command::SetSyncSource { source: SyncSource::Link });
    assert!(e.external_clock.link_enabled, "selecting Link must enable the session");
    e.apply_command(Command::SetSyncSource { source: SyncSource::Free });
    assert!(!e.external_clock.link_enabled, "selecting Free must disable the session");
    e.apply_command(Command::SetSyncSource { source: SyncSource::MidiClock });
    assert!(!e.external_clock.link_enabled, "selecting MidiClock must disable the session");
}

#[test]
fn set_sync_source_emits_sync_and_link_enabled_events() {
    let mut e = Engine::new();
    let fx = e.apply_command(Command::SetSyncSource { source: SyncSource::Link });
    let mut saw_sync = false;
    let mut saw_enabled = false;
    for ev in hot(&fx) {
        match ev {
            EngineEvent::SyncSourceChanged { source } => {
                assert_eq!(source, SyncSource::Link);
                saw_sync = true;
            }
            EngineEvent::LinkEnabledChanged { enabled } => {
                assert!(enabled, "LinkEnabledChanged must report enabled=true");
                saw_enabled = true;
            }
            _ => {}
        }
    }
    assert!(saw_sync, "SyncSourceChanged must be emitted");
    assert!(saw_enabled, "LinkEnabledChanged must be emitted");
    assert!(fx.iter().any(|f| matches!(f, Effect::SetLinkSession(true))));
}

#[test]
fn set_sync_source_free_and_midi_clock_emit_link_disabled_event() {
    let mut e = Engine::new();
    e.apply_command(Command::SetSyncSource { source: SyncSource::Link });
    for source in [SyncSource::Free, SyncSource::MidiClock] {
        let fx = e.apply_command(Command::SetSyncSource { source });
        let mut saw_sync = false;
        let mut saw_disabled = false;
        for ev in hot(&fx) {
            match ev {
                EngineEvent::SyncSourceChanged { source: s } => {
                    assert_eq!(s, source);
                    saw_sync = true;
                }
                EngineEvent::LinkEnabledChanged { enabled } => {
                    assert!(!enabled, "LinkEnabledChanged must report enabled=false for {source:?}");
                    saw_disabled = true;
                }
                _ => {}
            }
        }
        assert!(saw_sync, "SyncSourceChanged must be emitted for {source:?}");
        assert!(saw_disabled, "LinkEnabledChanged{{false}} must be emitted for {source:?}");
    }
}

#[test]
fn play_stop_toggle_transport_atomic() {
    let mut e = Engine::new();
    e.apply_command(Command::Play);
    assert!(e.transport.is_playing);
    e.apply_command(Command::Stop);
    assert!(!e.transport.is_playing);
    assert_eq!(e.transport.stop_generation, 1);
}

#[test]
fn serialize_command_emits_serialized_event_with_default_session() {
    let mut e = Engine::new();
    let fx = e.apply_command(Command::Serialize);
    assert!(hot(&fx).is_empty(), "Serialize must not ride the hot channel");
    assert_eq!(fx.len(), 1, "one effect per Serialize");
    match &fx[0] {
        Effect::SerializeSession(env) => {
            assert_eq!(env.version, SESSION_FORMAT_VERSION, "version tag must round-trip");
            assert_eq!(bpm(&env.session), 120.0, "default bpm must be 120");
        }
        _ => panic!("expected a session to serialize"),
    }
}

#[test]
fn load_session_emits_full_snapshot_on_large_channel() {
    let mut e = Engine::new();
    let env = SessionEnvelope::wrap(Session { bpm: 77.0f64.to_bits(), ..Default::default() });
    let gen_before = e.reload_generation;
    let fx = e.apply_command(Command::LoadSession { envelope: Some(env) });
    assert_eq!(e.reload_generation, gen_before + 1, "reload_generation must bump on a successful LoadSession");
    assert_eq!(bpm(e.snapshot_arc()), 77.0);
    assert!(hot(&fx).is_empty(), "FullSnapshot must not ride the hot channel");
    let l = large(&fx);
    assert_eq!(l.len(), 1, "LoadSession produced more than one event");
    match &l[0] {
        EngineEvent::FullSnapshot { session } => assert_eq!(bpm(session), 77.0, "snapshot must reflect the loaded session"),
        other => panic!("expected FullSnapshot, got {other:?}"),
    }
}

#[test]
fn load_session_invalid_session_is_dropped_no_event() {
    let mut e = Engine::new();
    let bad = SessionEnvelope {
        version: SESSION_FORMAT_VERSION,
        session: Session { active_pattern_index: PATTERN_SLOTS, ..Default::default() },
    };
    let gen_before = e.reload_generation;
    let fx = e.apply_command(Command::LoadSession { envelope: Some(bad) });
    assert_eq!(e.reload_generation, gen_before, "reload_generation must NOT bump on a rejected LoadSession");
    assert_eq!(bpm(e.snapshot_arc()), 120.0, "session must be unchanged");
    assert!(fx.is_empty(), "rejected LoadSession must not emit an event");
    // an envelope of another version, or bytes that did not decode, are dropped too
    let other = SessionEnvelope { version: SESSION_FORMAT_VERSION + 1, session: Session::default() };
    assert!(e.apply_command(Command::LoadSession { envelope: Some(other) }).is_empty());
    assert!(e.apply_command(Command::LoadSession { envelope: None }).is_empty());
    assert_eq!(e.reload_generation, gen_before);
}

#[test]
fn load_session_drops_stale_undo() {
    let mut e = Engine::new();
    e.apply_command(Command::Trash { track_idx: 1 });
    let fx = e.apply_command(Command::LoadSession { envelope: Some(SessionEnvelope::wrap(Session::default())) });
    assert_eq!(hot(&fx), vec![EngineEvent::UndoAvailable { track_idx: 1, available: false }]);
    let fx = e.apply_command(Command::Undo { track_idx: 1 });
    assert_eq!(hot(&fx), vec![EngineEvent::UndoAvailable { track_idx: 1, available: false }]);
}

fn with_pattern(p: Pattern) -> Session {
    let mut s = Session::default();
    for slot in s.patterns.iter_mut() {
        *slot = None;
    }
    s.patterns[0] = Some(p);
    s
}

#[test]
fn validate_session_accepts_default_rejects_corrupt() {
    assert!(validate_session(&Session::default()), "default is valid");
    let s = Session { active_pattern_index: PATTERN_SLOTS, ..Default::default() };
    assert!(!validate_session(&s), "active_pattern_index >= PATTERN_SLOTS");
    let mut p = Pattern::default();
    p.tracks[0].length = 0;
    assert!(!validate_session(&with_pattern(p)), "track length 0 is invalid");
    let mut p = Pattern::default();
    p.tracks[0].length = STEP_COUNT + 1;
    assert!(!validate_session(&with_pattern(p)), "track length > STEP_COUNT is invalid");
    let mut p = Pattern::default();
    p.tracks[0].length = STEP_COUNT;
    assert!(validate_session(&with_pattern(p)), "length == STEP_COUNT is valid");
    let mut p = Pattern::default();
    p.tracks.truncate(3);
    assert!(!validate_session(&with_pattern(p)), "fewer than four tracks is invalid");
}

#[test]
fn scheduler_wiring_queue_fires_and_switches() {
    let mut e = Engine::new();
    let mut s = Session::default();
    s.patterns[0] = Some(Pattern::default());
    let mut p1 = Pattern::default();
    p1.tracks[0].steps[0] = Step { active: true, velocity_zone: VelocityZone::Accent, ..Default::default() };
    s.patterns[1] = Some(p1);
    s.active_pattern_index = 0;
    e.publish(s);

    e.apply_command(Command::QueuePattern { index: 1, quantize: QuantizeGrain::NextBar });
    let mut rt = e.new_rt_state();
    e.check_scheduler(&mut rt);
    assert_eq!(e.scheduler.take_switch(), Some(1));
    for _ in 0..MAX_TRACKS {
        assert!(ring_dequeue(&mut e.midi).is_some(), "all-notes-off burst pushed");
    }
    let fx = e.apply_pattern_switch(1);
    assert_eq!(e.snapshot_arc().active_pattern_index, 1);
    assert_eq!(hot(&fx), vec![EngineEvent::PatternSwitched { index: 1 }]);
}

#[test]
fn scheduler_retrigger_resets_step_counters() {
    let mut e = Engine::new();
    let mut s = Session::default();
    s.patterns[0] = Some(Pattern::default());
    e.publish(s);
    let mut rt = e.new_rt_state();
    rt.per_track[0].step_idx = 7;
    rt.global_step = 5;
    e.apply_command(Command::RetriggerPattern { quantize: QuantizeGrain::NextStep });
    e.check_scheduler(&mut rt);
    assert_eq!(rt.per_track[0].step_idx, 0, "retrigger resets step counters");
    assert_eq!(rt.global_step, 0);
}

#[test]
fn scheduler_evaluates_follow_action_play_next() {
    let mut e = Engine::new();
    let mut s = Session::default();
    let p0 = Pattern {
        follow_action: FollowAction { after_loops: 2, action: FollowActionType::PlayNext },
        ..Default::default()
    };
    s.patterns[0] = Some(p0);
    s.patterns[1] = Some(Pattern::default());
    s.active_pattern_index = 0;
    e.publish(s);
    let mut rt = e.new_rt_state();
    rt.global_step = 0;
    let ev = e.check_scheduler(&mut rt);
    assert_eq!(e.scheduler.take_switch(), None, "Should not switch on loop 1");
    assert_eq!(ev, vec![EngineEvent::PatternLoopCountChanged { count: 1 }]);
    rt.global_step = 0;
    e.check_scheduler(&mut rt);
    assert_eq!(e.scheduler.take_switch(), Some(1), "Should switch to pattern 1 on loop 2");
}

#[test]
fn scheduler_follow_action_stop_stops_transport() {
    let mut e = Engine::new();
    let mut s = Session::default();
    s.patterns[0].as_mut().unwrap().follow_action = FollowAction { after_loops: 1, action: FollowActionType::Stop };
    e.publish(s);
    e.apply_command(Command::Play);
    let mut rt = e.new_rt_state();
    e.check_scheduler(&mut rt);
    assert!(!e.transport.is_playing);
    assert_eq!(e.transport.stop_generation, 1);
}

#[test]
fn host_driven_flag_reflects_constructor() {
    assert!(!Engine::new().host_driven, "standalone default is self-scheduled");
    assert!(Engine::new_host_driven().host_driven, "host-driven constructor sets the flag");
}

fn wiring_session() -> Session {
    let mut s = Session::default();
    let mut p = Pattern::default();
    p.tracks[0].midi_note = 38;
    p.tracks[0].length = 9;
    p.tracks[0].speed_ratio = 2.0f32.to_bits();
    p.tracks[0].steps[1] = Step { active: true, velocity_zone: VelocityZone::Mid, ..Default::default() };
    s.patterns[0] = Some(p);
    s
}

fn session_two_tracks() -> Session {
    let mut s = Session::default();
    let mut p = Pattern::default();
    p.tracks[0].midi_note = 38;
    p.tracks[0].steps[1] = Step { active: true, velocity_zone: VelocityZone::Mid, ..Default::default() };
    p.tracks[1].midi_note = 99;
    s.patterns[0] = Some(p);
    s
}

fn t0(s: &Session) -> (usize, u8, u32) {
    let t = &s.patterns[0].as_ref().unwrap().tracks[0];
    (t.length, t.midi_note, t.speed_ratio)
}

#[test]
fn trash_preserves_length_note_ratio() {
    let mut e = Engine::new();
    e.publish(wiring_session());
    let before = t0(e.snapshot_arc());
    e.apply_command(Command::Trash { track_idx: 0 });
    let after = t0(e.snapshot_arc());
    assert_eq!(before, after);
    assert!(!e.snapshot_arc().patterns[0].as_ref().unwrap().tracks[0].steps[1].active, "Trash must clear steps");
}

#[test]
fn cut_pushes_undo_and_undo_restores() {
    let mut e = Engine::new();
    e.publish(wiring_session());
    e.apply_command(Command::Cut { track_idx: 0 });
    assert!(!e.snapshot_arc().patterns[0].as_ref().unwrap().tracks[0].steps[1].active, "Cut must clear steps");
    e.apply_command(Command::Undo { track_idx: 0 });
    assert!(e.snapshot_arc().patterns[0].as_ref().unwrap().tracks[0].steps[1].active, "Undo must restore pre-Cut steps");
}

#[test]
fn cut_then_paste_keeps_target_midi_note() {
    let mut e = Engine::new();
    e.publish(session_two_tracks());
    e.apply_command(Command::Cut { track_idx: 0 });
    e.apply_command(Command::Paste { track_idx: 1 });
    let t1 = &e.snapshot_arc().patterns[0].as_ref().unwrap().tracks[1];
    assert_eq!(t1.midi_note, 99, "Paste must NOT carry midi_note — target keeps its own");
    assert!(t1.steps[1].active, "Paste must carry the cut track's steps");
}

#[test]
fn roll_and_vary_preserve_settings_through_the_engine() {
    for seed_bpm in [60.0f64, 120.0, 174.5] {
        let mut e = Engine::new();
        let mut s = wiring_session();
        s.bpm = seed_bpm.to_bits();
        e.publish(s);
        let before = t0(e.snapshot_arc());
        e.apply_command(Command::Roll { track_idx: 0, strength_bits: 1.0f32.to_bits(), strength: strength(1.0) });
        assert_eq!(t0(e.snapshot_arc()), before);
        e.apply_command(Command::Vary { track_idx: 0, strength_bits: 0.7f32.to_bits(), strength: strength(0.7) });
        assert_eq!(t0(e.snapshot_arc()), before);
    }
}

#[test]
fn track_tools_emit_snapshot_then_undo_flag() {
    let mut e = Engine::new();
    let fx = e.apply_command(Command::Trash { track_idx: 2 });
    assert_eq!(fx.len(), 2);
    assert!(matches!(&fx[0], Effect::Large(EngineEvent::FullSnapshot { .. })));
    assert_eq!(hot(&fx), vec![EngineEvent::UndoAvailable { track_idx: 2, available: true }]);
    let fx = e.apply_command(Command::Undo { track_idx: 2 });
    assert_eq!(hot(&fx), vec![EngineEvent::UndoAvailable { track_idx: 2, available: false }]);
}

#[test]
fn commands_emit_events() {
    let mut eng = Engine::new();
    let fx = eng.apply_command(Command::Play);
    assert_eq!(hot(&fx)[0], EngineEvent::PlayStateChanged { playing: true });
    let fx = eng.apply_command(Command::Stop);
    assert_eq!(hot(&fx)[0], EngineEvent::PlayStateChanged { playing: false });
    let fx = eng.apply_command(Command::SetSyncSource { source: SyncSource::Link });
    assert_eq!(hot(&fx)[0], EngineEvent::SyncSourceChanged { source: SyncSource::Link });
}

#[test]
fn pattern_clipboard_publish_gates_on_mutation() {
    let mut eng = Engine::new();
    let fx = eng.apply_command(Command::PastePattern { index: 0 });
    assert!(large(&fx).is_empty());
    assert!(hot(&fx).is_empty());
    let fx = eng.apply_command(Command::CopyPattern { index: 0 });
    assert!(large(&fx).is_empty(), "CopyPattern must not emit a FullSnapshot");
    assert!(hot(&fx).is_empty());
    let fx = eng.apply_command(Command::PastePattern { index: 1 });
    let l = large(&fx);
    assert_eq!(l.len(), 1);
    assert!(matches!(l[0], EngineEvent::FullSnapshot { .. }));
    let fx = eng.apply_command(Command::CutPattern { index: 0 });
    let l = large(&fx);
    assert_eq!(l.len(), 1);
    assert!(matches!(l[0], EngineEvent::FullSnapshot { .. }));
    let fx = eng.apply_command(Command::ClearPattern { index: 2 });
    let l = large(&fx);
    assert_eq!(l.len(), 1);
    assert!(matches!(l[0], EngineEvent::FullSnapshot { .. }));
}

#[test]
fn step_edits_emit_step_changed() {
    let mut e = Engine::new();
    let fx = e.apply_command(Command::SetStep { track_idx: 1, step_idx: 4, zone: VelocityZone::Accent });
    let step = e.snapshot_arc().patterns[0].as_ref().unwrap().tracks[1].steps[4];
    assert!(step.active && step.velocity_zone == VelocityZone::Accent);
    assert_eq!(hot(&fx), vec![EngineEvent::StepChanged { track_idx: 1, step_idx: 4, step }]);
    // out of range: nothing happens
    assert!(e.apply_command(Command::SetStep { track_idx: 1, step_idx: 16, zone: VelocityZone::Low }).is_empty());
    assert!(e.apply_command(Command::DeleteStep { track_idx: 7, step_idx: 0 }).is_empty());
    let fx = e.apply_command(Command::DeleteStep { track_idx: 1, step_idx: 4 });
    assert!(!e.snapshot_arc().patterns[0].as_ref().unwrap().tracks[1].steps[4].active);
    assert_eq!(hot(&fx).len(), 1);
}

#[test]
fn track_length_is_clamped_and_echoed() {
    let mut e = Engine::new();
    let fx = e.apply_command(Command::SetTrackLength { track_idx: 0, length: 40 });
    assert_eq!(e.snapshot_arc().patterns[0].as_ref().unwrap().tracks[0].length, 16);
    assert_eq!(hot(&fx), vec![EngineEvent::TrackLengthChanged { track_idx: 0, length: 16 }]);
    e.apply_command(Command::SetTrackLength { track_idx: 0, length: 0 });
    assert_eq!(e.snapshot_arc().patterns[0].as_ref().unwrap().tracks[0].length, 1);
}

#[test]
fn add_and_remove_track_respect_bounds() {
    let mut e = Engine::new();
    for n in 5..=8 {
        let fx = e.apply_command(Command::AddTrack);
        assert_eq!(e.snapshot_arc().patterns[0].as_ref().unwrap().tracks.len(), n);
        assert_eq!(large(&fx).len(), 1);
    }
    assert!(e.apply_command(Command::AddTrack).is_empty(), "no ninth track");
    for n in (4..8).rev() {
        let fx = e.apply_command(Command::RemoveTrack);
        assert_eq!(e.snapshot_arc().patterns[0].as_ref().unwrap().tracks.len(), n);
        assert_eq!(hot(&fx), vec![EngineEvent::TrackRemoved { track_idx: n }]);
    }
    assert!(e.apply_command(Command::RemoveTrack).is_empty(), "never below four tracks");
}

#[test]
fn midi_clock_accumulates_one_step_pulse_per_six_ticks() {
    let mut e = Engine::new();
    e.apply_command(Command::SetSyncSource { source: SyncSource::MidiClock });
    for _ in 0..6 {
        e.apply_command(Command::MidiClockTick);
    }
    assert_eq!(e.external_clock.midi_step_pulses, 1);
    for _ in 0..6 {
        e.apply_command(Command::MidiClockTick);
    }
    assert_eq!(e.external_clock.midi_step_pulses, 2);
}

#[test]
fn clock_ticks_count_a_pulse_per_six_from_fresh() {
    let mut e = Engine::new();
    let before = e.snapshot_arc().clone();
    for n in 1u32..=30 {
        e.apply_command(Command::MidiClockTick);
        assert_eq!(e.external_clock.midi_ticks, n);
        assert_eq!(e.external_clock.midi_step_pulses, n / 6);
    }
    assert_eq!(*e.snapshot_arc(), before);
}

#[test]
fn link_enabled_toggles_flag() {
    let mut e = Engine::new();
    e.apply_command(Command::SetLinkEnabled { enabled: true });
    assert!(e.external_clock.link_enabled);
}

fn session_with_one_hit() -> Session {
    let mut s = Session::default();
    let mut p = Pattern::default();
    p.tracks[0].steps[0] = Step { active: true, velocity_zone: VelocityZone::Accent, ..Step::default() };
    p.tracks[0].midi_note = 36;
    s.patterns[0] = Some(p);
    s.bpm = 120.0f64.to_bits();
    s
}

#[test]
fn process_advances_playhead_and_emits_note_on() {
    let mut eng = Engine::new();
    eng.publish(session_with_one_hit());
    let mut rt = RtState::new(1);
    eng.begin_play(&mut rt);
    let params = flat_params();
    let period = 125_000u64;
    let mut notes = 0;
    let mut events = Vec::new();
    for i in 0..4 {
        let outcome = process(&mut rt, &eng.snapshot, true, i * period, &mut eng.midi, &mut events, &params);
        notes += outcome.notes_pushed;
    }
    assert!(notes >= 1, "at least the step-0 note-on");
    assert_eq!(ring_dequeue(&mut eng.midi).map(|m| m.note), Some(36));
    assert!(matches!(events[0], EngineEvent::Playhead { .. }), "a playhead");
}

#[test]
fn process_when_stopped_does_nothing() {
    let mut eng = Engine::new();
    eng.publish(session_with_one_hit());
    let mut rt = RtState::new(1);
    let mut events = Vec::new();
    let o = process(&mut rt, &eng.snapshot, false, 0, &mut eng.midi, &mut events, &flat_params());
    assert_eq!((o.notes_pushed, o.playheads_emitted), (0, 0));
    assert!(events.is_empty());
    assert!(ring_dequeue(&mut eng.midi).is_none());
}

#[test]
fn process_one_fires_ratchets_and_wraps_bar() {
    let mut eng = Engine::new();
    let mut s = session_with_one_hit();
    s.patterns[0].as_mut().unwrap().tracks[0].steps[0].ratchet = sequencer_engine::models::Ratchet::X3;
    eng.publish(s);
    let mut rt = eng.new_rt_state();
    let mut events = Vec::new();
    eng.process_one(&mut rt, true, 0, &mut events, &flat_params());
    let mut n = 0;
    while ring_dequeue(&mut eng.midi).is_some() {
        n += 1;
    }
    assert_eq!(n, 3, "a x3 ratchet fires three note-ons");
    assert_eq!(rt.global_step, 1);
    // four playheads (one per track of the default kit)
    assert_eq!(events.iter().filter(|e| matches!(e, EngineEvent::Playhead { .. })).count(), 4);
    for _ in 1..16 {
        eng.process_one(&mut rt, true, 0, &mut events, &flat_params());
    }
    assert_eq!(rt.global_step, 0);
    assert!(events.contains(&EngineEvent::PatternLoopCountChanged { count: 1 }));
}

#[test]
fn due_ticks_follow_the_sync_source() {
    assert_eq!(due_ticks(SyncSource::Free, 9, 100, 0), 1);
    assert_eq!(due_ticks(SyncSource::MidiClock, 3, 100, 0), 3);
    assert_eq!(due_ticks(SyncSource::Link, 9, 10, 7), 3);
    assert_eq!(due_ticks(SyncSource::Link, 9, 5, 7), 0);
}

#[test]
fn roll_seed_depends_on_track_index() {
    let mut s = Session::default();
    {
        let p = s.patterns[0].as_mut().unwrap();
        for t in 0..2 {
            for i in 0..16 {
                p.tracks[t].steps[i] = Step { active: true, velocity_zone: VelocityZone::Mid, ..Default::default() };
            }
        }
    }
    let rolled = |session: Session, idx: usize| -> Vec<u32> {
        let mut e = Engine::new();
        e.publish(session);
        e.apply_command(Command::Roll { track_idx: idx, strength_bits: 1.0f32.to_bits(), strength: strength(1.0) });
        e.snapshot_arc().patterns[0].as_ref().unwrap().tracks[idx].steps.iter().map(|st| st.micro_timing_offset).collect()
    };
    assert_ne!(rolled(s.clone(), 0), rolled(s.clone(), 1), "each track rolls from its own seed");
    assert_eq!(rolled(s.clone(), 0), rolled(s, 0), "the same track and tempo roll alike");
}
