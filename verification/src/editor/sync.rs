//! The mirror follows the engine: fed the events the engine emits for a
//! command, in order, a mirror that held the engine's session holds the new
//! one. Stated over session values.

use vstd::prelude::*;
use crate::editor::ui_state::{session_mirrored, track_edited, active_slot};
use crate::engine::{
    command_applied, command_wf, stale_undo_events, edited_step, clamp_length, Effect, Engine, StepEdit,
};
use crate::command::Command;
use crate::event::EngineEvent;
use crate::models::{
    track_at, track_replaced, pattern_content_replaced, slot_view,
    PatternView, Session, SessionView, Track, PATTERN_SLOTS, STEP_COUNT, MAX_TRACKS,
};

verus! {

broadcast use vstd::array::group_array_axioms;

/// The value of a mirrored session, if any.
pub open spec fn opt_view(m: Option<Session>) -> Option<SessionView> {
    match m {
        Some(s) => Some(s@),
        None => None,
    }
}

/// The active pattern of a session value, if its slot holds one.
pub open spec fn active_view(sv: SessionView) -> Option<PatternView> {
    if sv.active_pattern_index < PATTERN_SLOTS { sv.patterns[sv.active_pattern_index as int] } else { None }
}

/// `sv` with slot `pi` holding `p`.
pub open spec fn with_slot(sv: SessionView, pi: int, p: Option<PatternView>) -> SessionView {
    SessionView { patterns: sv.patterns.update(pi, p), ..sv }
}

/// `sv` with track `ti` of its active pattern replaced by `f` of itself, when
/// that track exists.
pub open spec fn map_active_track(sv: SessionView, ti: usize, f: spec_fn(Track) -> Track) -> Option<SessionView> {
    match active_view(sv) {
        Some(p) if ti < p.tracks.len() => Some(with_slot(sv, sv.active_pattern_index as int,
            Some(PatternView { tracks: p.tracks.update(ti as int, f(p.tracks[ti as int])), ..p }))),
        _ => Some(sv),
    }
}

/// What one event does to a mirrored session value.
pub open spec fn mirror_view(m: Option<SessionView>, ev: EngineEvent) -> Option<SessionView> {
    match m {
        None => match ev {
            EngineEvent::FullSnapshot { session } => Some(session@),
            _ => None,
        },
        Some(sv) => match ev {
            EngineEvent::StepChanged { track_idx, step_idx, step } => if step_idx < 16 {
                map_active_track(sv, track_idx, |t: Track| Track {
                    steps: vstd::array::spec_array_update(t.steps, step_idx as int, step),
                    ..t
                })
            } else {
                m
            },
            EngineEvent::TrackLengthChanged { track_idx, length } =>
                map_active_track(sv, track_idx, |t: Track| Track { length, ..t }),
            EngineEvent::TrackMutedChanged { track_idx, muted } =>
                map_active_track(sv, track_idx, |t: Track| Track { muted, ..t }),
            EngineEvent::TrackAdded { track_idx, track } => match active_view(sv) {
                Some(p) => {
                    let at = if track_idx < p.tracks.len() { track_idx as int } else { p.tracks.len() as int };
                    Some(with_slot(sv, sv.active_pattern_index as int,
                        Some(PatternView { tracks: p.tracks.insert(at, track), ..p })))
                },
                None => m,
            },
            EngineEvent::TrackRemoved { track_idx } => match active_view(sv) {
                Some(p) if track_idx < p.tracks.len() => Some(with_slot(sv, sv.active_pattern_index as int,
                    Some(PatternView { tracks: p.tracks.remove(track_idx as int), ..p }))),
                _ => m,
            },
            EngineEvent::PatternSwitched { index } => Some(SessionView { active_pattern_index: index, ..sv }),
            EngineEvent::PatternCleared { index } =>
                if index < PATTERN_SLOTS { Some(with_slot(sv, index as int, None)) } else { m },
            EngineEvent::FollowActionChanged { pattern_idx, action } =>
                if pattern_idx < PATTERN_SLOTS && sv.patterns[pattern_idx as int] is Some {
                    let p = sv.patterns[pattern_idx as int]->Some_0;
                    Some(with_slot(sv, pattern_idx as int, Some(PatternView { follow_action: action, ..p })))
                } else {
                    m
                },
            EngineEvent::BpmChanged { bpm } => Some(SessionView { bpm, ..sv }),
            EngineEvent::SyncSourceChanged { source } => Some(SessionView { sync_source: source, ..sv }),
            EngineEvent::FullSnapshot { session } => Some(session@),
            _ => m,
        },
    }
}

/// The mirrored session value after the events among `fx`, in order (effects
/// that are not events leave it as it is).
pub open spec fn mirror_fold(m: Option<SessionView>, fx: Seq<Effect>) -> Option<SessionView>
    decreases fx.len(),
{
    if fx.len() == 0 {
        m
    } else {
        let m1 = match fx[0] {
            Effect::Hot(ev) => mirror_view(m, ev),
            Effect::Large(ev) => mirror_view(m, ev),
            _ => m,
        };
        mirror_fold(m1, fx.drop_first())
    }
}

proof fn lemma_track_replaced_view(a: Session, b: Session, pi: int, ti: int, t: Track)
    requires
        0 <= pi < PATTERN_SLOTS,
        track_replaced(a, b, pi, ti, t),
    ensures
        b@ == with_slot(a@, pi, Some(PatternView {
            tracks: a.patterns@[pi]->Some_0.tracks@.update(ti, t),
            ..slot_view(a.patterns@[pi])->Some_0
        })),
{
    let w = with_slot(a@, pi, Some(PatternView {
        tracks: a.patterns@[pi]->Some_0.tracks@.update(ti, t),
        ..slot_view(a.patterns@[pi])->Some_0
    }));
    assert(b@.patterns =~= w.patterns);
}

proof fn lemma_content_replaced_view(a: Session, b: Session, pi: int, tracks: Seq<Track>, fa: crate::models::FollowAction)
    requires
        0 <= pi < PATTERN_SLOTS,
        pattern_content_replaced(a, b, pi, tracks, fa),
    ensures
        b@ == with_slot(a@, pi, Some(PatternView { id: a.patterns@[pi]->Some_0.id, tracks, follow_action: fa })),
{
    let w = with_slot(a@, pi, Some(PatternView { id: a.patterns@[pi]->Some_0.id, tracks, follow_action: fa }));
    assert(b@.patterns =~= w.patterns);
}

proof fn lemma_edited_track_eq(t: Track, u: Track, steps: Seq<crate::models::Step>, length: usize, muted: bool, w: Track)
    requires
        track_edited(t, u, steps, length, muted),
        w.id == t.id,
        w.midi_note == t.midi_note,
        w.speed_ratio == t.speed_ratio,
        w.swing_pct == t.swing_pct,
        w.steps@ == steps,
        w.length == length,
        w.muted == muted,
    ensures
        u == w,
{
    assert(u.steps =~= w.steps);
}

/// What [`UiState::apply`](crate::editor::ui_state::UiState::apply) does to the
/// mirrored session, as a value.
pub proof fn lemma_mirrored_view(a: Option<Session>, b: Option<Session>, ev: EngineEvent)
    requires
        session_mirrored(a, b, ev),
    ensures
        opt_view(b) == mirror_view(opt_view(a), ev),
{
    match a {
        None => {},
        Some(sa) => {
            let ai = sa.active_pattern_index as int;
            match ev {
                EngineEvent::StepChanged { track_idx, step_idx, step } => {
                    if step_idx < 16 && track_at(sa, ai, track_idx as int) is Some {
                        let t = track_at(sa, ai, track_idx as int)->Some_0;
                        let sb = b->Some_0;
                        let u = track_at(sb, ai, track_idx as int)->Some_0;
                        let w = Track { steps: vstd::array::spec_array_update(t.steps, step_idx as int, step), ..t };
                        lemma_edited_track_eq(t, u, t.steps@.update(step_idx as int, step), t.length, t.muted, w);
                        lemma_track_replaced_view(sa, sb, ai, track_idx as int, u);
                    }
                },
                EngineEvent::TrackLengthChanged { track_idx, length } => {
                    if track_at(sa, ai, track_idx as int) is Some {
                        let t = track_at(sa, ai, track_idx as int)->Some_0;
                        let sb = b->Some_0;
                        let u = track_at(sb, ai, track_idx as int)->Some_0;
                        lemma_edited_track_eq(t, u, t.steps@, length, t.muted, Track { length, ..t });
                        lemma_track_replaced_view(sa, sb, ai, track_idx as int, u);
                    }
                },
                EngineEvent::TrackMutedChanged { track_idx, muted } => {
                    if track_at(sa, ai, track_idx as int) is Some {
                        let t = track_at(sa, ai, track_idx as int)->Some_0;
                        let sb = b->Some_0;
                        let u = track_at(sb, ai, track_idx as int)->Some_0;
                        lemma_edited_track_eq(t, u, t.steps@, t.length, muted, Track { muted, ..t });
                        lemma_track_replaced_view(sa, sb, ai, track_idx as int, u);
                    }
                },
                EngineEvent::TrackAdded { track_idx, track } => {
                    if active_slot(sa) is Some {
                        let p = active_slot(sa)->Some_0;
                        let at = if track_idx < p.tracks@.len() { track_idx as int } else { p.tracks@.len() as int };
                        lemma_content_replaced_view(sa, b->Some_0, ai, p.tracks@.insert(at, track), p.follow_action);
                    }
                },
                EngineEvent::TrackRemoved { track_idx } => {
                    if active_slot(sa) is Some && track_idx < active_slot(sa)->Some_0.tracks@.len() {
                        let p = active_slot(sa)->Some_0;
                        lemma_content_replaced_view(sa, b->Some_0, ai, p.tracks@.remove(track_idx as int), p.follow_action);
                    }
                },
                EngineEvent::PatternCleared { index } => {
                    if index < PATTERN_SLOTS {
                        assert(b->Some_0@.patterns =~= sa@.patterns.update(index as int, None));
                    }
                },
                EngineEvent::FollowActionChanged { pattern_idx, action } => {
                    if pattern_idx < PATTERN_SLOTS && sa.patterns@[pattern_idx as int] is Some {
                        let p = sa.patterns@[pattern_idx as int]->Some_0;
                        lemma_content_replaced_view(sa, b->Some_0, pattern_idx as int, p.tracks@, action);
                    }
                },
                _ => {},
            }
        },
    }
}

/// Effects that leave a mirrored session as it is.
pub open spec fn inert(e: Effect) -> bool {
    match e {
        Effect::Hot(EngineEvent::UndoAvailable { .. }) => true,
        Effect::Hot(EngineEvent::LinkEnabledChanged { .. }) => true,
        Effect::Hot(EngineEvent::PlayStateChanged { .. }) => true,
        Effect::SerializeSession(_) => true,
        Effect::SetLinkSession(_) => true,
        _ => false,
    }
}

proof fn lemma_fold_inert(m: Option<SessionView>, fx: Seq<Effect>)
    requires
        forall|i: int| 0 <= i < fx.len() ==> inert(#[trigger] fx[i]),
    ensures
        mirror_fold(m, fx) == m,
    decreases fx.len(),
{
    if fx.len() > 0 {
        assert(inert(fx[0]));
        assert forall|i: int| 0 <= i < fx.drop_first().len() implies inert(#[trigger] fx.drop_first()[i]) by {
            assert(fx.drop_first()[i] == fx[i + 1]);
        }
        lemma_fold_inert(m, fx.drop_first());
    }
}

proof fn lemma_stale_inert(slots: Seq<Option<crate::undo::TrackSnapshot>>, n: nat)
    ensures
        forall|i: int| 0 <= i < stale_undo_events(slots, n).len() ==> inert(#[trigger] stale_undo_events(slots, n)[i]),
    decreases n,
{
    if n > 0 {
        lemma_stale_inert(slots, (n - 1) as nat);
        let prev = stale_undo_events(slots, (n - 1) as nat);
        assert forall|i: int| 0 <= i < stale_undo_events(slots, n).len() implies inert(#[trigger] stale_undo_events(slots, n)[i]) by {
            if i < prev.len() {
                assert(stale_undo_events(slots, n)[i] == prev[i]);
            }
        }
    }
}

/// A full snapshot followed by effects that are all inert.
proof fn lemma_snapshot_then_inert(m: Option<SessionView>, fx: Seq<Effect>, s: SessionView)
    requires
        fx.len() >= 1,
        crate::engine::is_full_snapshot(fx[0], s),
        forall|i: int| 1 <= i < fx.len() ==> inert(#[trigger] fx[i]),
    ensures
        mirror_fold(m, fx) == Some(s),
{
    assert forall|i: int| 0 <= i < fx.drop_first().len() implies inert(#[trigger] fx.drop_first()[i]) by {
        assert(fx.drop_first()[i] == fx[i + 1]);
    }
    lemma_fold_inert(Some(s), fx.drop_first());
}

proof fn lemma_stale_tail(m: Option<SessionView>, fx: Seq<Effect>, s: SessionView, slots: Seq<Option<crate::undo::TrackSnapshot>>)
    requires
        fx.len() >= 1,
        crate::engine::is_full_snapshot(fx[0], s),
        fx.drop_first() == stale_undo_events(slots, MAX_TRACKS as nat),
    ensures
        mirror_fold(m, fx) == Some(s),
{
    lemma_stale_inert(slots, MAX_TRACKS as nat);
    assert forall|i: int| 1 <= i < fx.len() implies inert(#[trigger] fx[i]) by {
        assert(fx[i] == fx.drop_first()[i - 1]);
    }
    lemma_snapshot_then_inert(m, fx, s);
}

proof fn lemma_one_event(m: Option<SessionView>, ev: EngineEvent)
    ensures
        mirror_fold(m, seq![Effect::Hot(ev)]) == mirror_view(m, ev),
{
    let m1 = mirror_view(m, ev);
    assert(seq![Effect::Hot(ev)].drop_first() =~= Seq::<Effect>::empty());
    assert(mirror_fold(m1, Seq::<Effect>::empty()) == m1);
}

/// The mirror law: a mirror holding the engine's session, fed the events the
/// engine emits for any command in the order emitted, holds the engine's new
/// session.
pub proof fn law_mirror_follows_engine(a: Engine, cmd: Command, b: Engine, fx: Seq<Effect>)
    requires
        a.wf(),
        command_wf(cmd),
        command_applied(a, cmd, b, fx),
    ensures
        mirror_fold(Some(a.snapshot@), fx) == Some(b.snapshot@),
{
    let ai = a.snapshot.active_pattern_index as int;
    match cmd {
        Command::Play | Command::Stop => {
            assert(inert(fx[0]));
            lemma_fold_inert(Some(a.snapshot@), fx);
        },
        Command::SetSyncSource { source } => {
            let m1 = Some(SessionView { sync_source: source, ..a.snapshot@ });
            assert(fx.drop_first()[0] == fx[1]);
            assert(fx.drop_first()[1] == fx[2]);
            assert(inert(fx.drop_first()[0]));
            assert(inert(fx.drop_first()[1]));
            lemma_fold_inert(m1, fx.drop_first());
            assert(b.snapshot@ == SessionView { sync_source: source, ..a.snapshot@ });
        },
        Command::SetLinkEnabled { .. } => {
            assert(inert(fx[0]) && inert(fx[1]));
            lemma_fold_inert(Some(a.snapshot@), fx);
        },
        Command::Serialize => {
            assert(inert(fx[0]));
            lemma_fold_inert(Some(a.snapshot@), fx);
        },
        Command::RequestFullSnapshot | Command::SetGlobalSwing { .. } | Command::SetHumanize { .. }
        | Command::SetGlobalMidiChannel { .. } | Command::SetMidiDestinations { .. }
        | Command::SetTrackNote { .. } | Command::SetTrackSpeedRatio { .. } | Command::SetTrackSwing { .. } => {
            lemma_snapshot_then_inert(Some(a.snapshot@), fx, b.snapshot@);
        },
        Command::LoadSession { envelope } => {
            if fx.len() > 0 {
                lemma_stale_tail(Some(a.snapshot@), fx, b.snapshot@, a.undo.track_slots());
            }
        },
        Command::Roll { .. } | Command::Vary { .. } | Command::Cut { .. } | Command::Copy { .. }
        | Command::Paste { .. } | Command::Trash { .. } | Command::Undo { .. } => {
            assert(inert(fx[1]));
            lemma_snapshot_then_inert(Some(a.snapshot@), fx, b.snapshot@);
        },
        Command::CutPattern { index } | Command::ClearPattern { index } | Command::PastePattern { index }
        | Command::UndoPattern { index } => {
            if fx.len() > 0 {
                if index == b.snapshot.active_pattern_index {
                    lemma_stale_tail(Some(a.snapshot@), fx, b.snapshot@, a.undo.track_slots());
                } else {
                    lemma_snapshot_then_inert(Some(a.snapshot@), fx, b.snapshot@);
                }
            }
        },
        Command::SetBpm { bpm } => {
            lemma_one_event(Some(a.snapshot@), EngineEvent::BpmChanged { bpm: crate::engine::bpm_clamped(bpm) });
        },
        Command::SetTrackLength { track_idx, length } => {
            if track_at(a.snapshot, ai, track_idx as int) is Some {
                lemma_one_event(Some(a.snapshot@), EngineEvent::TrackLengthChanged { track_idx, length: clamp_length(length) });
                lemma_track_replaced_view(a.snapshot, b.snapshot, ai, track_idx as int,
                    Track { length: clamp_length(length), ..track_at(a.snapshot, ai, track_idx as int)->Some_0 });
            }
        },
        Command::SetTrackMuted { track_idx, muted } => {
            if track_at(a.snapshot, ai, track_idx as int) is Some {
                lemma_one_event(Some(a.snapshot@), EngineEvent::TrackMutedChanged { track_idx, muted });
                lemma_track_replaced_view(a.snapshot, b.snapshot, ai, track_idx as int,
                    Track { muted, ..track_at(a.snapshot, ai, track_idx as int)->Some_0 });
            }
        },
        Command::SetStep { track_idx, step_idx, zone } => {
            lemma_step_edit(a, b, track_idx, step_idx, StepEdit::Place(zone), fx);
        },
        Command::DeleteStep { track_idx, step_idx } => {
            lemma_step_edit(a, b, track_idx, step_idx, StepEdit::Delete, fx);
        },
        Command::SetRatchet { track_idx, step_idx, ratchet } => {
            lemma_step_edit(a, b, track_idx, step_idx, StepEdit::Ratchet(ratchet), fx);
        },
        Command::AddTrack => {
            if fx.len() > 0 {
                let p0 = a.snapshot.patterns@[ai]->Some_0;
                let ev = fx[0]->Large_0;
                assert(fx.drop_first() =~= Seq::<Effect>::empty());
                assert(active_view(a.snapshot@) == Some(p0@));
                let m1 = mirror_view(Some(a.snapshot@), ev);
                assert(mirror_fold(m1, Seq::<Effect>::empty()) == m1);
                lemma_content_replaced_view(a.snapshot, b.snapshot, ai, p0.tracks@.push(ev->TrackAdded_track), p0.follow_action);
                assert(p0.tracks@.insert(p0.tracks@.len() as int, ev->TrackAdded_track) =~= p0.tracks@.push(ev->TrackAdded_track));
            }
        },
        Command::RemoveTrack => {
            if fx.len() > 0 {
                let p0 = a.snapshot.patterns@[ai]->Some_0;
                assert(active_view(a.snapshot@) == Some(p0@));
                assert(p0.tracks.len() == p0.tracks@.len());
                let k = (p0.tracks@.len() - 1) as usize;
                assert(k == p0.tracks@.len() - 1);
                lemma_one_event(Some(a.snapshot@), EngineEvent::TrackRemoved { track_idx: (p0.tracks@.len() - 1) as usize });
                lemma_content_replaced_view(a.snapshot, b.snapshot, ai, p0.tracks@.drop_last(), p0.follow_action);
                assert(p0.tracks@.remove(p0.tracks@.len() - 1) =~= p0.tracks@.drop_last());
            }
        },
        Command::SetFollowAction { pattern_idx, action } => {
            if pattern_idx < PATTERN_SLOTS {
                lemma_one_event(Some(a.snapshot@), EngineEvent::FollowActionChanged { pattern_idx, action });
                if a.snapshot.patterns@[pattern_idx as int] is Some {
                    let p0 = a.snapshot.patterns@[pattern_idx as int]->Some_0;
                    lemma_content_replaced_view(a.snapshot, b.snapshot, pattern_idx as int, p0.tracks@, action);
                }
            }
        },
        _ => {},
    }
}

proof fn lemma_step_edit(a: Engine, b: Engine, idx: usize, step_idx: usize, e: StepEdit, fx: Seq<Effect>)
    requires
        a.wf(),
        crate::engine::edit_step_post(a, b, idx, step_idx, e, fx),
    ensures
        mirror_fold(Some(a.snapshot@), fx) == Some(b.snapshot@),
{
    let ai = a.snapshot.active_pattern_index as int;
    match track_at(a.snapshot, ai, idx as int) {
        Some(t0) => if step_idx < STEP_COUNT {
            let s1 = edited_step(t0.steps@[step_idx as int], e);
            let t1 = track_at(b.snapshot, ai, idx as int)->Some_0;
            lemma_one_event(Some(a.snapshot@), EngineEvent::StepChanged { track_idx: idx, step_idx, step: s1 });
            let w = Track { steps: vstd::array::spec_array_update(t0.steps, step_idx as int, s1), ..t0 };
            assert(t1.steps =~= w.steps);
            lemma_track_replaced_view(a.snapshot, b.snapshot, ai, idx as int, t1);
        },
        None => {},
    }
}

} // verus!
