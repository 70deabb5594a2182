use sequencer_engine::command::Command;
use sequencer_engine::editor::gestures::{
    add_track_command, cell_click_command, cell_drag_command, cell_secondary_click_command, launcher_cell_state,
    mute_toggle_command, pattern_cell_command, pattern_cell_secondary_command, remove_track_command, track_led_lit,
};
use sequencer_engine::editor::overlays::{
    gm_drum_name, is_black_key, ratchet_should_dismiss, should_dismiss, DrawerButton, EditorLocal, FocusFlags, NoteMode,
    PatternClip, ROLL_DEFAULT_BITS, VARY_DEFAULT_BITS,
};
use sequencer_engine::editor::ui_state::UiState;
use sequencer_engine::editor::widgets::{queue_pattern_command, transport_action, ActionDraft, AppMode, CellState, Zoom};
use sequencer_engine::event::EngineEvent;
use sequencer_engine::models::{
    FollowAction, FollowActionType, QuantizeGrain, Ratchet, Session, Step, Track, VelocityZone, MAX_TRACKS,
};

fn session_state() -> UiState {
    UiState { session: Some(Session::default()), ..Default::default() }
}

fn track_mut(st: &mut UiState, idx: usize) -> &mut Track {
    &mut st.session.as_mut().unwrap().patterns[0].as_mut().unwrap().tracks[idx]
}

fn track(st: &UiState, idx: usize) -> &Track {
    &st.session.as_ref().unwrap().patterns[0].as_ref().unwrap().tracks[idx]
}

fn step(active: bool, zone: VelocityZone) -> Step {
    Step { active, velocity_zone: zone, ..Default::default() }
}

/// Track 0 with step 0 active Mid and step 1 active Accent.
fn grid_fixture() -> UiState {
    let mut st = session_state();
    track_mut(&mut st, 0).steps[0] = step(true, VelocityZone::Mid);
    track_mut(&mut st, 0).steps[1] = step(true, VelocityZone::Accent);
    st
}

/// Track 0 eight steps long with step 12 active Low.
fn grid_fixture_short() -> UiState {
    let mut st = session_state();
    track_mut(&mut st, 0).length = 8;
    track_mut(&mut st, 0).steps[12] = step(true, VelocityZone::Low);
    st
}

fn session_with_tracks(n: usize) -> Session {
    let mut s = Session::default();
    let p = s.patterns[0].as_mut().unwrap();
    while p.tracks.len() < n {
        p.tracks.push(Track::default());
    }
    s
}

/// The sheet opened on `idx` and shown for a few frames.
fn open_options(local: &mut EditorLocal, idx: usize, st: &UiState) {
    local.open_pattern_options(idx, st.session.as_ref());
    for _ in 0..3 {
        local.tick_frame();
        local.pattern_options_frame(st.session.as_ref());
        local.record_options_focus(FocusFlags { loops: false, action: false, target: false });
    }
}

// ---- grid ----

#[test]
fn grid_left_click_cycles_zone() {
    let st = grid_fixture();
    let c = cell_click_command(0, 0, track(&st, 0));
    assert!(matches!(c, Some(Command::SetStep { track_idx: 0, step_idx: 0, zone: VelocityZone::Accent })));
}

#[test]
fn grid_left_click_empty_places_mid() {
    let st = grid_fixture();
    let c = cell_click_command(0, 2, track(&st, 0));
    assert!(matches!(c, Some(Command::SetStep { track_idx: 0, step_idx: 2, zone: VelocityZone::Mid })));
}

#[test]
fn grid_right_click_deletes() {
    let st = grid_fixture();
    let c = cell_secondary_click_command(0, 1, track(&st, 0));
    assert!(matches!(c, Some(Command::DeleteStep { track_idx: 0, step_idx: 1 })));
}

#[test]
fn grid_right_click_beyond_length_blocked() {
    let st = grid_fixture_short();
    assert!(cell_secondary_click_command(0, 12, track(&st, 0)).is_none(), "right-click beyond length must not delete");
}

#[test]
fn grid_left_click_beyond_length_places_not_deletes() {
    let st = grid_fixture_short();
    let c = cell_click_command(0, 11, track(&st, 0));
    assert!(matches!(c, Some(Command::SetStep { track_idx: 0, step_idx: 11, zone: VelocityZone::Mid })));

    let st2 = grid_fixture_short();
    assert!(cell_click_command(0, 12, track(&st2, 0)).is_none(), "click-cycle to Delete beyond length must be a no-op");
}

#[test]
fn grid_low_step_click_deletes_within_length() {
    let mut st = session_state();
    track_mut(&mut st, 1).steps[3] = step(true, VelocityZone::Low);
    assert!(matches!(
        cell_click_command(1, 3, track(&st, 1)),
        Some(Command::DeleteStep { track_idx: 1, step_idx: 3 })
    ));
}

#[test]
fn drag_sets_zone_on_filled_steps_within_length_only() {
    let st = grid_fixture();
    assert!(matches!(
        cell_drag_command(0, 0, track(&st, 0), Some(VelocityZone::Accent)),
        Some(Command::SetStep { track_idx: 0, step_idx: 0, zone: VelocityZone::Accent })
    ));
    assert!(matches!(
        cell_drag_command(0, 1, track(&st, 0), Some(VelocityZone::Low)),
        Some(Command::SetStep { track_idx: 0, step_idx: 1, zone: VelocityZone::Low })
    ));
    // a short drag, an empty step, or a step past the length send nothing
    assert!(cell_drag_command(0, 0, track(&st, 0), None).is_none());
    assert!(cell_drag_command(0, 5, track(&st, 0), Some(VelocityZone::Accent)).is_none());
    let short = grid_fixture_short();
    assert!(cell_drag_command(0, 12, track(&short, 0), Some(VelocityZone::Accent)).is_none());
}

#[test]
fn grid_zoom_key_num2_restores_sixteen() {
    let mut local = EditorLocal::new();
    assert_eq!(local.zoom, Zoom::Sixteen, "default = 16");
    local.zoom_keys(true, false);
    assert_eq!(local.zoom, Zoom::Eight, "Num1 -> 8 (wide)");
    local.zoom_keys(false, true);
    assert_eq!(local.zoom, Zoom::Sixteen, "Num2 -> 16 (narrow)");
    local.zoom_keys(false, false);
    assert_eq!(local.zoom, Zoom::Sixteen);
}

#[test]
fn grid_modifier_click_opens_ratchet_and_sets() {
    let mut local = EditorLocal::new();
    local.open_ratchet(0, 0);
    assert_eq!(local.ratchet_target, Some((0, 0)), "popover should be open");
    let c = local.pick_ratchet(Ratchet::X2);
    assert!(matches!(c, Some(Command::SetRatchet { track_idx: 0, step_idx: 0, ratchet: Ratchet::X2 })));
    assert_eq!(local.ratchet_target, None);
}

#[test]
fn grid_ratchet_popover_dismiss_esc() {
    let mut local = EditorLocal::new();
    local.open_ratchet(0, 0);
    assert_eq!(local.ratchet_target, Some((0, 0)));
    if ratchet_should_dismiss(true, false, false) {
        local.close_ratchet();
    }
    assert_eq!(local.ratchet_target, None, "Esc should dismiss the popover");
}

#[test]
fn grid_ratchet_popover_dismiss_outside_click() {
    let mut local = EditorLocal::new();
    local.open_ratchet(0, 0);
    // an Alt-click outside moves the popover instead of closing it
    assert!(!ratchet_should_dismiss(false, true, true));
    if ratchet_should_dismiss(false, true, false) {
        local.close_ratchet();
    }
    assert_eq!(local.ratchet_target, None, "outside click should dismiss the popover");
}

#[test]
fn grid_header_mute_toggles() {
    let st = grid_fixture();
    let c = mute_toggle_command(0, track(&st, 0).muted);
    assert!(matches!(c, Command::SetTrackMuted { track_idx: 0, muted: true }));
}

#[test]
fn grid_header_drum_name_click_opens_note_picker() {
    let mut local = EditorLocal::new();
    local.open_action_drawer(2);
    local.open_note_picker(0);
    assert_eq!(local.note_picker.target, Some(0), "drum-name click should open the NotePickerSheet");
    assert_eq!(local.action_drawer.target, None);
}

#[test]
fn grid_header_dots_click_opens_action_drawer() {
    let mut local = EditorLocal::new();
    local.open_note_picker(1);
    local.open_settings();
    local.open_action_drawer(0);
    assert_eq!(local.action_drawer.target, Some(0), "... click should open the ActionDrawer");
    assert_eq!(local.note_picker.target, None);
    assert!(!local.settings.open);
}

// ---- note picker ----

#[test]
fn gm_cell_click_emits_set_track_note_and_closes() {
    let mut local = EditorLocal::new();
    local.note_picker.target = Some(0);
    let c = local.pick_note(42);
    assert!(matches!(c, Some(Command::SetTrackNote { track_idx: 0, midi_note: 42 })));
    assert_eq!(local.note_picker.target, None);
}

#[test]
fn piano_key_click_emits_set_track_note() {
    let mut local = EditorLocal::new();
    local.note_picker.target = Some(0);
    local.note_picker.mode = NoteMode::PianoRoll;
    let c = local.pick_note(40);
    assert!(matches!(c, Some(Command::SetTrackNote { track_idx: 0, midi_note: 40 })));
}

#[test]
fn current_note_is_highlighted() {
    let mut st = session_state();
    track_mut(&mut st, 0).midi_note = 38;
    let mut local = EditorLocal::new();
    local.note_picker.target = Some(0);
    assert_eq!(local.note_picker_current(&st), Some(38));
}

#[test]
fn note_picker_esc_dismisses_without_emit() {
    let mut local = EditorLocal::new();
    local.note_picker.target = Some(0);
    local.tick_frame();
    if should_dismiss(true, false, local.is_open_frame(local.note_picker.opened_at)) {
        local.close_note_picker();
    }
    assert_eq!(local.note_picker.target, None);
}

#[test]
fn note_picker_outside_click_dismisses() {
    let mut local = EditorLocal::new();
    local.note_picker.target = Some(0);
    local.tick_frame();
    if should_dismiss(false, true, local.is_open_frame(local.note_picker.opened_at)) {
        local.close_note_picker();
    }
    assert_eq!(local.note_picker.target, None);
}

#[test]
fn note_picker_closed_renders_no_panic() {
    let mut local = EditorLocal::new();
    assert!(local.note_picker.target.is_none());
    assert!(local.pick_note(36).is_none());
}

#[test]
fn no_session_renders_no_panic() {
    let st = UiState::default();
    let mut local = EditorLocal::new();
    local.note_picker.target = Some(0);
    assert_eq!(local.note_picker_current(&st), None);
}

#[test]
fn header_drum_name_click_low_track_stays_open() {
    let mut local = EditorLocal::new();
    local.tick_frame();
    local.note_picker.mode = NoteMode::PianoRoll;
    local.open_note_picker(7);
    // the opening click lands outside the sheet on its opening frame
    if should_dismiss(false, true, local.is_open_frame(local.note_picker.opened_at)) {
        local.close_note_picker();
    }
    assert_eq!(local.note_picker.target, Some(7));
}

#[test]
fn note_picker_tables() {
    assert_eq!(gm_drum_name(35), Some("Acoustic Bass Drum"));
    assert_eq!(gm_drum_name(42), Some("Closed Hi-Hat"));
    assert_eq!(gm_drum_name(50), Some("High Tom"));
    assert_eq!(gm_drum_name(34), None);
    assert_eq!(gm_drum_name(51), None);
    assert!(is_black_key(37));
    assert!(is_black_key(58));
    assert!(!is_black_key(36));
    assert!(!is_black_key(40));
    assert!(!is_black_key(60));
}

// ---- action drawer ----

#[test]
fn drawer_starts_with_slider_defaults() {
    let local = EditorLocal::new();
    assert_eq!(f32::from_bits(local.action_drawer.vary), 0.5);
    assert_eq!(f32::from_bits(local.action_drawer.roll), 0.6);
    assert_eq!(local.action_drawer.vary, VARY_DEFAULT_BITS);
    assert_eq!(local.action_drawer.roll, ROLL_DEFAULT_BITS);
}

#[test]
fn drawer_clipboard_buttons_emit_and_stay_open() {
    let st = session_state();
    let mut local = EditorLocal::new();
    local.action_drawer.target = Some(0);
    assert!(matches!(local.drawer_button(DrawerButton::Copy, &st), Some(Command::Copy { track_idx: 0 })));
    assert!(matches!(local.drawer_button(DrawerButton::Cut, &st), Some(Command::Cut { track_idx: 0 })));
    assert!(matches!(local.drawer_button(DrawerButton::Paste, &st), Some(Command::Paste { track_idx: 0 })));
    assert!(matches!(local.drawer_button(DrawerButton::Clear, &st), Some(Command::Trash { track_idx: 0 })));
    assert_eq!(local.action_drawer.target, Some(0));
}

#[test]
fn undo_disabled_when_not_available() {
    let st = session_state();
    let mut local = EditorLocal::new();
    local.action_drawer.target = Some(0);
    assert!(local.drawer_button(DrawerButton::Undo, &st).is_none());
    assert_eq!(local.action_drawer.target, Some(0));
}

#[test]
fn undo_enabled_emits_and_closes() {
    let mut st = session_state();
    st.undo_available.insert(0);
    let mut local = EditorLocal::new();
    local.action_drawer.target = Some(0);
    let c = local.drawer_button(DrawerButton::Undo, &st);
    assert!(matches!(c, Some(Command::Undo { track_idx: 0 })));
    assert_eq!(local.action_drawer.target, None);
}

#[test]
fn keep_closes_without_emit() {
    let st = session_state();
    let mut local = EditorLocal::new();
    local.action_drawer.target = Some(0);
    assert!(local.drawer_button(DrawerButton::Keep, &st).is_none());
    assert_eq!(local.action_drawer.target, None);
}

#[test]
fn action_drawer_esc_dismisses_without_emit() {
    let mut local = EditorLocal::new();
    local.action_drawer.target = Some(0);
    local.tick_frame();
    if should_dismiss(true, false, local.is_open_frame(local.action_drawer.opened_at)) {
        local.close_action_drawer();
    }
    assert_eq!(local.action_drawer.target, None);
}

#[test]
fn action_drawer_outside_click_dismisses() {
    let mut local = EditorLocal::new();
    local.action_drawer.target = Some(0);
    local.tick_frame();
    if should_dismiss(false, true, local.is_open_frame(local.action_drawer.opened_at)) {
        local.close_action_drawer();
    }
    assert_eq!(local.action_drawer.target, None);
}

#[test]
fn action_drawer_closed_renders_no_panic() {
    let st = session_state();
    let mut local = EditorLocal::new();
    assert_eq!(local.drawer_track(st.tracks().len()), None);
    assert!(local.drawer_button(DrawerButton::Copy, &st).is_none());
}

#[test]
fn auto_closes_when_target_track_out_of_range() {
    let st = session_state();
    let mut local = EditorLocal::new();
    local.action_drawer.target = Some(4);
    assert_eq!(local.drawer_track(st.tracks().len()), None);
    assert_eq!(local.action_drawer.target, None, "OOB target must auto-close");
    local.action_drawer.target = Some(3);
    assert_eq!(local.drawer_track(st.tracks().len()), Some(3));
}

#[test]
fn header_dots_click_low_track_stays_open() {
    let mut local = EditorLocal::new();
    local.tick_frame();
    local.open_action_drawer(7);
    if should_dismiss(false, true, local.is_open_frame(local.action_drawer.opened_at)) {
        local.close_action_drawer();
    }
    assert_eq!(local.action_drawer.target, Some(7));
}

// ---- settings ----

#[test]
fn closed_renders_no_panic_no_emit() {
    let local = EditorLocal::new();
    assert!(!local.settings.open);
}

#[test]
fn done_dismisses() {
    let mut local = EditorLocal::new();
    local.open_settings();
    local.tick_frame();
    local.close_settings();
    assert!(!local.settings.open);
}

#[test]
fn esc_dismisses() {
    let mut local = EditorLocal::new();
    local.open_settings();
    local.tick_frame();
    if should_dismiss(true, false, local.is_open_frame(local.settings.opened_at)) {
        local.close_settings();
    }
    assert!(!local.settings.open);
}

#[test]
fn settings_outside_click_dismisses() {
    let mut local = EditorLocal::new();
    local.open_settings();
    // not on the opening frame
    assert!(!should_dismiss(false, true, local.is_open_frame(local.settings.opened_at)));
    local.tick_frame();
    if should_dismiss(false, true, local.is_open_frame(local.settings.opened_at)) {
        local.close_settings();
    }
    assert!(!local.settings.open);
}

// ---- pattern options ----

#[test]
fn save_emits_set_follow_action_and_closes() {
    let st = session_state();
    let mut local = EditorLocal::new();
    open_options(&mut local, 1, &st);
    let c = local.save_pattern_options(&st.session.as_ref().unwrap().patterns);
    assert!(matches!(
        c,
        Some(Command::SetFollowAction {
            pattern_idx: 1,
            action: FollowAction { after_loops: 1, action: FollowActionType::NoAction },
        })
    ));
    assert_eq!(local.pattern_options.target, None);
}

#[test]
fn seeded_draft_round_trips_existing_follow_action() {
    let mut st = session_state();
    st.session.as_mut().unwrap().patterns[2].as_mut().unwrap().follow_action =
        FollowAction { after_loops: 4, action: FollowActionType::PlayNext };
    let mut local = EditorLocal::new();
    open_options(&mut local, 2, &st);
    let c = local.save_pattern_options(&st.session.as_ref().unwrap().patterns);
    assert!(matches!(
        c,
        Some(Command::SetFollowAction {
            pattern_idx: 2,
            action: FollowAction { after_loops: 4, action: FollowActionType::PlayNext },
        })
    ));
}

#[test]
fn play_specific_draft_round_trips_target_id() {
    let mut st = session_state();
    let id5 = st.session.as_ref().unwrap().patterns[5].as_ref().unwrap().id;
    st.session.as_mut().unwrap().patterns[2].as_mut().unwrap().follow_action =
        FollowAction { after_loops: 2, action: FollowActionType::PlaySpecific(id5) };
    let mut local = EditorLocal::new();
    open_options(&mut local, 2, &st);
    assert_eq!(local.pattern_options.action, ActionDraft::PlaySpecific);
    assert_eq!(local.pattern_options.specific_target, 5);
    match local.save_pattern_options(&st.session.as_ref().unwrap().patterns) {
        Some(Command::SetFollowAction { pattern_idx: 2, action }) => {
            assert_eq!(action, FollowAction { after_loops: 2, action: FollowActionType::PlaySpecific(id5) });
        },
        _ => panic!("expected SetFollowAction on slot 2"),
    }
}

#[test]
fn after_loops_out_of_range_clamps_on_seed() {
    let mut st = session_state();
    st.session.as_mut().unwrap().patterns[1].as_mut().unwrap().follow_action.after_loops = 32;
    let mut local = EditorLocal::new();
    open_options(&mut local, 1, &st);
    assert_eq!(local.pattern_options.after_loops, 16, "out-of-range after_loops must clamp to 16");
}

#[test]
fn open_sheet_re_syncs_draft_after_external_follow_action_change() {
    let mut st = session_state();
    let mut local = EditorLocal::new();
    open_options(&mut local, 2, &st);
    st.session.as_mut().unwrap().patterns[2].as_mut().unwrap().follow_action =
        FollowAction { after_loops: 9, action: FollowActionType::PlayNext };
    local.tick_frame();
    local.pattern_options_frame(st.session.as_ref());
    assert_eq!(local.pattern_options.after_loops, 9, "draft must re-sync after_loops to the live pattern");
    assert_eq!(local.pattern_options.action, ActionDraft::PlayNext, "draft must re-sync action");
}

#[test]
fn focused_field_is_not_re_synced() {
    let mut st = session_state();
    let mut local = EditorLocal::new();
    open_options(&mut local, 2, &st);
    local.set_options_loops(40);
    assert_eq!(local.pattern_options.after_loops, 16);
    local.set_options_loops(-3);
    assert_eq!(local.pattern_options.after_loops, 1);
    local.set_options_loops(5);
    local.record_options_focus(FocusFlags { loops: true, action: false, target: false });
    st.session.as_mut().unwrap().patterns[2].as_mut().unwrap().follow_action =
        FollowAction { after_loops: 9, action: FollowActionType::Stop };
    local.tick_frame();
    local.pattern_options_frame(st.session.as_ref());
    assert_eq!(local.pattern_options.after_loops, 5, "the slider being edited keeps its value");
    assert_eq!(local.pattern_options.action, ActionDraft::Stop);
}

#[test]
fn cancel_dismisses_without_emit() {
    let st = session_state();
    let mut local = EditorLocal::new();
    open_options(&mut local, 0, &st);
    local.close_pattern_options();
    assert_eq!(local.pattern_options.target, None);
    assert!(local.save_pattern_options(&st.session.as_ref().unwrap().patterns).is_none());
}

#[test]
fn pattern_options_esc_dismisses_without_emit() {
    let st = session_state();
    let mut local = EditorLocal::new();
    open_options(&mut local, 0, &st);
    if should_dismiss(true, false, local.is_open_frame(local.pattern_options.opened_at)) {
        local.close_pattern_options();
    }
    assert_eq!(local.pattern_options.target, None);
}

#[test]
fn pattern_options_outside_click_dismisses() {
    let st = session_state();
    let mut local = EditorLocal::new();
    open_options(&mut local, 0, &st);
    if should_dismiss(false, true, local.is_open_frame(local.pattern_options.opened_at)) {
        local.close_pattern_options();
    }
    assert_eq!(local.pattern_options.target, None);
}

#[test]
fn pattern_options_closed_renders_no_panic() {
    let st = session_state();
    let mut local = EditorLocal::new();
    assert_eq!(local.pattern_options_frame(st.session.as_ref()), None);
    assert!(local.pattern_options.target.is_none());
}

#[test]
fn auto_closes_when_target_slot_cleared() {
    let mut st = session_state();
    st.session.as_mut().unwrap().patterns[2] = None;
    let mut local = EditorLocal::new();
    local.pattern_options.target = Some(2);
    assert_eq!(local.pattern_options_frame(st.session.as_ref()), None);
    assert_eq!(local.pattern_options.target, None, "cleared target must auto-close");
}

#[test]
fn clipboard_buttons_emit_expected_commands_and_stay_open() {
    let st = session_state();
    for clip in [PatternClip::Cut, PatternClip::Copy, PatternClip::Paste, PatternClip::Clear] {
        let mut local = EditorLocal::new();
        open_options(&mut local, 2, &st);
        let c = local.pattern_clip(clip);
        let ok = match (clip, &c) {
            (PatternClip::Cut, Some(Command::CutPattern { index })) => *index == 2,
            (PatternClip::Copy, Some(Command::CopyPattern { index })) => *index == 2,
            (PatternClip::Paste, Some(Command::PastePattern { index })) => *index == 2,
            (PatternClip::Clear, Some(Command::ClearPattern { index })) => *index == 2,
            _ => false,
        };
        assert!(ok, "{clip:?}: wrong command");
        assert_eq!(local.pattern_options.target, Some(2), "{clip:?}: sheet must STAY OPEN after emit");
    }
}

// ---- launcher ----

fn launcher_states(st: &UiState) -> Vec<CellState> {
    (0..9).map(|i| launcher_cell_state(st, i).expect("session present")).collect()
}

#[test]
fn play_stop_reflects_actual_state() {
    let st = session_state();
    assert!(matches!(transport_action(st.playing), Command::Play));
    let st2 = UiState { playing: true, session: Some(Session::default()), ..Default::default() };
    assert!(matches!(transport_action(st2.playing), Command::Stop));
}

#[test]
fn grain_pill_emits_set_quantize_grain_and_shares_slot() {
    let mut local = EditorLocal::new();
    let c = local.choose_grain(QuantizeGrain::NextBar);
    assert!(matches!(c, Command::SetQuantizeGrain { grain: QuantizeGrain::NextBar }));
    assert_eq!(local.grain, QuantizeGrain::NextBar);
}

#[test]
fn filled_cell_click_emits_queuepattern_with_live_grain() {
    let st = session_state();
    let mut local = EditorLocal::new();
    local.grain = QuantizeGrain::EndOfPattern;
    let cell = launcher_cell_state(&st, 3).unwrap();
    assert_eq!(cell, CellState::Filled);
    assert!(matches!(
        pattern_cell_command(cell, 3, local.grain),
        Some(Command::QueuePattern { index: 3, quantize: QuantizeGrain::EndOfPattern })
    ));
}

#[test]
fn queued_cell_click_emits_cancel() {
    let mut st = session_state();
    st.queued_pattern = Some(3);
    assert_eq!(launcher_states(&st)[3], CellState::Queued);
    let local = EditorLocal::new();
    assert!(matches!(pattern_cell_command(CellState::Queued, 3, local.grain), Some(Command::CancelQueuedPattern)));
}

#[test]
fn active_cell_click_retriggers_next_beat() {
    let st = session_state();
    assert_eq!(launcher_states(&st)[0], CellState::Playing);
    let local = EditorLocal::new();
    assert!(matches!(
        pattern_cell_command(CellState::Playing, 0, local.grain),
        Some(Command::RetriggerPattern { quantize: QuantizeGrain::NextBeat })
    ));
}

#[test]
fn active_cell_right_click_retriggers_next_step() {
    let st = session_state();
    let cell = launcher_cell_state(&st, 0).unwrap();
    assert!(matches!(
        pattern_cell_secondary_command(cell),
        Some(Command::RetriggerPattern { quantize: QuantizeGrain::NextStep })
    ));
    assert!(pattern_cell_secondary_command(CellState::Filled).is_none());
}

#[test]
fn empty_cell_click_sends_nothing() {
    let mut st = session_state();
    st.session.as_mut().unwrap().patterns[6] = None;
    assert_eq!(launcher_states(&st)[6], CellState::Empty);
    assert!(pattern_cell_command(CellState::Empty, 6, QuantizeGrain::NextBar).is_none());
}

#[test]
fn mute_toggle_emits_set_track_muted() {
    let st = session_state();
    assert!(matches!(mute_toggle_command(0, st.tracks()[0].muted), Command::SetTrackMuted { track_idx: 0, muted: true }));
}

#[test]
fn gear_click_opens_pattern_options_stays_open() {
    let st = session_state();
    let mut local = EditorLocal::new();
    local.tick_frame();
    local.open_pattern_options(1, st.session.as_ref());
    if should_dismiss(false, true, local.is_open_frame(local.pattern_options.opened_at)) {
        local.close_pattern_options();
    }
    assert_eq!(local.pattern_options.target, Some(1));
}

#[test]
fn render_no_session_no_panic() {
    let st = UiState::default();
    assert_eq!(launcher_cell_state(&st, 0), None);
}

#[test]
fn cell_highlights_track_real_event_order_through_apply() {
    let mut st = session_state();
    st.apply(&EngineEvent::PatternQueued { index: 3, quantize: QuantizeGrain::NextBar });
    let states = launcher_states(&st);
    assert_eq!(states[0], CellState::Playing, "P1 still playing");
    assert_eq!(states[3], CellState::Queued, "P4 queued (precedence over filled)");

    st.apply(&EngineEvent::PatternLoopCountChanged { count: 1 });
    let states = launcher_states(&st);
    assert_eq!(states[0], CellState::Playing);
    assert_eq!(states[3], CellState::Queued);

    st.apply(&EngineEvent::PatternSwitched { index: 3 });
    let states = launcher_states(&st);
    assert_eq!(states[3], CellState::Playing, "P4 now playing");
    assert_eq!(states[0], CellState::Filled, "P1 back to filled");
    assert_eq!(st.queued_pattern, None);
    assert_eq!(st.pattern_loop_count, 0, "PatternSwitched resets the loop count");
}

#[test]
fn track_led_follows_playhead_on_active_steps() {
    let mut st = grid_fixture();
    let t0 = *track(&st, 0);
    // stopped: dark
    assert!(!track_led_lit(&st, 0, &t0));
    st.playing = true;
    // no playhead yet reads step 0, which is active
    assert!(track_led_lit(&st, 0, &t0));
    st.apply_playhead(0, 2);
    assert!(!track_led_lit(&st, 0, &t0));
    st.apply_playhead(0, 1);
    assert!(track_led_lit(&st, 0, &t0));
}

// ---- groove bar and mode ----

#[test]
fn quantize_cycle_advances_grain() {
    let mut local = EditorLocal::new();
    let a = local.cycle_grain();
    let b = local.cycle_grain();
    assert!(matches!(a, Command::SetQuantizeGrain { grain: QuantizeGrain::NextBar }));
    assert!(matches!(b, Command::SetQuantizeGrain { grain: QuantizeGrain::EndOfPattern }));
}

#[test]
fn patterns_slot_emits_queuepattern_next_bar() {
    match queue_pattern_command(2) {
        Command::QueuePattern { index, quantize } => {
            assert_eq!(index, 2);
            assert_eq!(quantize, QuantizeGrain::NextBar);
        },
        _ => panic!("expected one QueuePattern"),
    }
}

#[test]
fn mode_switch_closes_the_other_modes_sheets() {
    let st = session_state();
    let mut local = EditorLocal::new();
    assert_eq!(local.mode, AppMode::Editing);
    local.open_note_picker(1);
    local.toggle_mode();
    assert_eq!(local.mode, AppMode::Performance);
    assert_eq!(local.note_picker.target, None);
    local.open_pattern_options(0, st.session.as_ref());
    local.toggle_mode();
    assert_eq!(local.mode, AppMode::Editing);
    assert_eq!(local.pattern_options.target, None);
}

// ---- track bar ----

#[test]
fn add_click_emits_addtrack() {
    let st = UiState { session: Some(session_with_tracks(5)), ..UiState::default() };
    assert!(matches!(add_track_command(st.tracks().len()), Some(Command::AddTrack)));
}

#[test]
fn remove_click_emits_removetrack() {
    let st = UiState { session: Some(session_with_tracks(5)), ..UiState::default() };
    assert!(matches!(remove_track_command(st.tracks().len()), Some(Command::RemoveTrack)));
}

#[test]
fn add_disabled_at_max_emits_nothing() {
    let st = UiState { session: Some(session_with_tracks(MAX_TRACKS)), ..UiState::default() };
    assert!(add_track_command(st.tracks().len()).is_none(), "disabled + must not emit");
}

#[test]
fn remove_disabled_at_min_emits_nothing() {
    let st = session_state();
    assert!(remove_track_command(st.tracks().len()).is_none(), "disabled - must not emit");
}

#[test]
fn track_management_render_no_session_no_panic() {
    let st = UiState::default();
    assert!(matches!(add_track_command(st.tracks().len()), Some(Command::AddTrack)));
    assert!(remove_track_command(st.tracks().len()).is_none(), "disabled - must not emit even without a session");
}
