use sequencer_engine::clipboard::Clipboard;
use sequencer_engine::models::{
    FollowAction, FollowActionType, Pattern, Session, Step, Track, VelocityZone, MIN_TRACKS, PATTERN_SLOTS,
};
use sequencer_engine::undo::Undo;

fn session_with_steps() -> Session {
    let mut s = Session::default();
    let mut p = Pattern::default();
    p.tracks[0].steps[0] = Step { active: true, velocity_zone: VelocityZone::Accent, ..Default::default() };
    s.patterns[0] = Some(p);
    s
}

#[test]
fn undo_restores_steps() {
    let mut u = Undo::default();
    let mut s = session_with_steps();
    u.push(0, &s.patterns[0].as_ref().unwrap().tracks[0]);
    s.patterns[0].as_mut().unwrap().tracks[0].steps[0].active = false;
    assert!(u.undo(&mut s, 0));
    assert!(s.patterns[0].as_ref().unwrap().tracks[0].steps[0].active);
    assert!(!u.available(0));
}

#[test]
fn undo_restores_length_and_speed_ratio() {
    let mut u = Undo::default();
    let mut s = Session::default();
    let mut p = Pattern::default();
    p.tracks[0].length = 5;
    p.tracks[0].speed_ratio = 2.0f32.to_bits();
    s.patterns[0] = Some(p);
    u.push(0, &s.patterns[0].as_ref().unwrap().tracks[0]);
    {
        let t = &mut s.patterns[0].as_mut().unwrap().tracks[0];
        t.length = 9;
        t.speed_ratio = 0.5f32.to_bits();
    }
    assert!(u.undo(&mut s, 0));
    let t = &s.patterns[0].as_ref().unwrap().tracks[0];
    assert_eq!(t.length, 5);
    assert_eq!(f32::from_bits(t.speed_ratio), 2.0);
}

#[test]
fn undo_ignores_out_of_range_idx() {
    let mut u = Undo::default();
    let mut s = session_with_steps();
    u.push(0, &s.patterns[0].as_ref().unwrap().tracks[0]);
    assert!(!u.undo(&mut s, 99));
    assert!(u.available(0));
}

#[test]
fn take_occupied_marks_indices_and_clears() {
    let mut u = Undo::default();
    let s = session_with_steps();
    u.push(0, &s.patterns[0].as_ref().unwrap().tracks[0]);
    u.push(2, &s.patterns[0].as_ref().unwrap().tracks[0]);
    let occupied = u.take_occupied();
    assert!(occupied[0] && occupied[2], "flags the occupied indices");
    assert!(!occupied[1] && !occupied[3], "unoccupied slots stay false");
    assert!(!u.available(0) && !u.available(2), "slots now cleared");
    assert!(u.take_occupied().iter().all(|f| !f), "second drain is empty");
}

fn session_with_pattern_at(idx: usize) -> Session {
    let mut s = Session::default();
    let mut p = Pattern::default();
    p.tracks[0].steps[3] = Step { active: true, velocity_zone: VelocityZone::Accent, ..Default::default() };
    p.follow_action = FollowAction { after_loops: 5, action: FollowActionType::PlayNext };
    s.patterns[idx] = Some(p);
    s
}

#[test]
fn push_then_undo_pattern_restores_tracks_and_follow_action() {
    let mut s = session_with_pattern_at(2);
    let id_before = s.patterns[2].as_ref().unwrap().id;
    let tracks_before = s.patterns[2].as_ref().unwrap().tracks.clone();
    let fa_before = s.patterns[2].as_ref().unwrap().follow_action;

    let mut u = Undo::default();
    u.push_pattern(2, s.patterns[2].as_ref().unwrap());
    assert!(u.available_pattern(2), "snapshot present after push");

    Clipboard::clear_pattern(&mut s, 2);
    assert!(u.undo_pattern(&mut s, 2), "undo must restore");

    let got = s.patterns[2].as_ref().expect("slot stays Some");
    assert_eq!(got.tracks, tracks_before, "tracks restored");
    assert_eq!(got.follow_action, fa_before, "follow_action restored");
    assert_eq!(got.id, id_before, "id preserved");
    assert!(!u.available_pattern(2), "snapshot consumed (one-deep)");
    assert!(!u.undo_pattern(&mut s, 2), "second undo is a no-op");
}

#[test]
fn undo_pattern_is_total_for_bad_index_or_empty_slot() {
    let mut u = Undo::default();
    let mut s = Session::default();
    assert!(!u.undo_pattern(&mut s, PATTERN_SLOTS), "OOB index is a no-op");
    assert!(!u.undo_pattern(&mut s, 0), "missing snapshot is a no-op");
    s.patterns[1] = None;
    u.push_pattern(1, &Pattern::default());
    assert!(!u.undo_pattern(&mut s, 1), "None target slot is a no-op");
}

#[test]
fn take_occupied_patterns_drains_and_clears() {
    let mut u = Undo::default();
    u.push_pattern(1, &Pattern::default());
    u.push_pattern(7, &Pattern::default());
    let occupied = u.take_occupied_patterns();
    assert!(occupied[1] && occupied[7], "marked indices 1 and 7");
    assert!(!u.available_pattern(1) && !u.available_pattern(7), "cleared");
    assert!(u.take_occupied_patterns().iter().all(|f| !f), "second drain is empty");
}

#[test]
fn clear_tracks_empties_per_track_slots() {
    let mut u = Undo::default();
    let t = Track::default();
    u.push(0, &t);
    u.push(3, &t);
    assert!(u.available(0) && u.available(3));
    let cleared = u.clear_tracks();
    assert!(cleared[0] && cleared[3], "occupied slots flagged");
    assert!(!cleared[1] && !cleared[2], "unoccupied slots stay false");
    assert!(!u.available(0) && !u.available(3), "per-track slots cleared");
}

#[test]
fn prop_pattern_undo_restores_state() {
    for n_active in 0usize..16 {
        for after_loops in [1u32, 7, 16] {
            let mut s = session_with_pattern_at(4);
            {
                let p = s.patterns[4].as_mut().unwrap();
                for st in p.tracks[0].steps.iter_mut().take(n_active) {
                    st.active = true;
                }
                p.follow_action.after_loops = after_loops;
            }
            let before = s.patterns[4].clone().unwrap();
            let mut u = Undo::default();
            u.push_pattern(4, &before);
            Clipboard::clear_pattern(&mut s, 4);
            assert!(u.undo_pattern(&mut s, 4));
            let got = s.patterns[4].as_ref().unwrap();
            assert_eq!(&got.tracks, &before.tracks);
            assert_eq!(&got.follow_action, &before.follow_action);
            assert_eq!(got.id, before.id, "id invariant");
        }
    }
}

#[test]
fn copy_then_paste_preserves_midi_note() {
    let mut s = Session::default();
    let mut p = Pattern::default();
    p.tracks[0].midi_note = 42;
    p.tracks[0].steps[3] = Step { active: true, velocity_zone: VelocityZone::Accent, ..Default::default() };
    p.tracks[1].midi_note = 99;
    s.patterns[0] = Some(p);
    let mut cb = Clipboard::default();
    cb.copy(&s, 0);
    assert!(cb.paste(&mut s, 1));
    assert_eq!(s.patterns[0].as_ref().unwrap().tracks[1].midi_note, 99);
    assert!(s.patterns[0].as_ref().unwrap().tracks[1].steps[3].active);
}

#[test]
fn pattern_copy_then_paste_preserves_target_id_overwrites_tracks() {
    let mut s = Session::default();
    {
        let src = s.patterns[2].as_mut().unwrap();
        src.tracks[0].steps[0] = Step { active: true, velocity_zone: VelocityZone::Accent, ..Default::default() };
        src.follow_action = FollowAction { after_loops: 3, action: FollowActionType::PlayNext };
    }
    let target_id = s.patterns[5].as_ref().unwrap().id;
    let mut cb = Clipboard::default();
    cb.copy_pattern(&s, 2);
    assert!(cb.paste_pattern(&mut s, 5));
    let got = s.patterns[5].as_ref().unwrap();
    assert!(got.tracks[0].steps[0].active);
    assert_eq!(got.follow_action.after_loops, 3);
    assert_eq!(got.id, target_id);
}

#[test]
fn pattern_paste_empty_clipboard_is_noop() {
    let mut s = Session::default();
    let before = s.patterns[5].clone();
    let cb = Clipboard::default();
    assert!(!cb.paste_pattern(&mut s, 5));
    assert_eq!(s.patterns[5], before);
}

#[test]
fn pattern_clear_resets_steps_keeps_slot() {
    let mut s = Session::default();
    s.patterns[3].as_mut().unwrap().tracks[0].steps[0] =
        Step { active: true, velocity_zone: VelocityZone::Accent, ..Default::default() };
    assert!(Clipboard::clear_pattern(&mut s, 3), "clear on a Some slot must return true");
    let p = s.patterns[3].as_ref().unwrap();
    assert!(p.tracks.iter().all(|t| t.steps.iter().all(|st| !st.active)));
    assert_eq!(p.tracks.len(), MIN_TRACKS);
}

#[test]
fn pattern_cut_copies_then_clears() {
    let mut s = Session::default();
    s.patterns[1].as_mut().unwrap().tracks[0].steps[0] =
        Step { active: true, velocity_zone: VelocityZone::Accent, ..Default::default() };
    let mut cb = Clipboard::default();
    cb.cut_pattern(&mut s, 1);
    assert!(s.patterns[1].as_ref().unwrap().tracks.iter().all(|t| t.steps.iter().all(|st| !st.active)));
    // the clip holds the pre-cut tracks: pasting it elsewhere shows them
    assert!(cb.paste_pattern(&mut s, 4));
    assert!(s.patterns[4].as_ref().unwrap().tracks[0].steps[0].active);
}

#[test]
fn prop_pattern_copy_paste() {
    for src in 0usize..9 {
        for dst in 0usize..9 {
            let mut s = Session::default();
            let src_pat = s.patterns[src].as_mut().unwrap();
            src_pat.tracks[0].steps[3] = Step { active: true, velocity_zone: VelocityZone::Low, ..Default::default() };
            src_pat.follow_action = FollowAction { after_loops: 7, action: FollowActionType::PlayPrevious };
            let src_tracks = src_pat.tracks.clone();
            let src_fa = src_pat.follow_action;
            let dst_id_before = s.patterns[dst].as_ref().unwrap().id;
            let mut cb = Clipboard::default();
            cb.copy_pattern(&s, src);
            assert!(cb.paste_pattern(&mut s, dst));
            let got = s.patterns[dst].as_ref().unwrap();
            assert_eq!(&got.tracks, &src_tracks);
            assert_eq!(&got.follow_action, &src_fa);
            assert_eq!(got.id, dst_id_before);
        }
    }
}

#[test]
fn cut_track_empties_steps_and_fills_clip() {
    let mut s = session_with_steps();
    let mut cb = Clipboard::default();
    cb.cut(&mut s, 0);
    assert!(!s.patterns[0].as_ref().unwrap().tracks[0].steps[0].active);
    assert!(cb.paste(&mut s, 2));
    assert!(s.patterns[0].as_ref().unwrap().tracks[2].steps[0].active);
    // a paste onto a missing track does nothing
    assert!(!cb.paste(&mut s, 7));
}
