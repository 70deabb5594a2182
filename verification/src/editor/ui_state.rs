//! The editor's mirror of engine state. It changes only by applying engine
//! events (and by taking a whole session from a snapshot), never by reading
//! engine memory.

use vstd::prelude::*;
use std::collections::{HashMap, HashSet};
use crate::editor::sync::{lemma_mirrored_view, mirror_view, opt_view};
use crate::event::EngineEvent;
use crate::models::{
    get_track, replace_track, copy_session, track_at, track_replaced, pattern_content_replaced,
    same_settings, other_slots_same, FollowAction, Pattern, QuantizeGrain, Session, SyncSource, Track,
    PATTERN_SLOTS, DEFAULT_BPM_BITS,
};

verus! {

broadcast use vstd::std_specs::hash::group_hash_axioms;

/// An engine error shown to the user.
#[derive(Clone, Debug, PartialEq, Eq)]
pub struct EngineError {
    pub code: i32,
    pub message: String,
}

/// The editor's state: the session as last seen, plus what only the event
/// stream tells (transport, queued pattern, loop count, playheads, undo
/// availability, last error and overflow, Link status).
pub struct UiState {
    pub session: Option<Session>,
    pub playing: bool,
    pub queued_pattern: Option<usize>,
    pub queued_pattern_quantize: Option<QuantizeGrain>,
    pub pattern_loop_count: u32,
    /// Latest step index per track.
    pub playheads: HashMap<usize, usize>,
    /// Tracks with an undo snapshot available.
    pub undo_available: HashSet<usize>,
    pub last_error: Option<EngineError>,
    pub last_overflow: Option<u32>,
    pub link_peers: usize,
    pub link_enabled: bool,
}

/// The tracks of the active pattern, none without one.
pub open spec fn shown_tracks(u: UiState) -> Seq<Track> {
    match u.session {
        Some(s) => match active_slot(s) {
            Some(p) => p.tracks@,
            None => Seq::<Track>::empty(),
        },
        None => Seq::<Track>::empty(),
    }
}

/// Everything of a [`UiState`] but the session, as values.
pub struct Transient {
    pub playing: bool,
    pub queued_pattern: Option<usize>,
    pub queued_pattern_quantize: Option<QuantizeGrain>,
    pub pattern_loop_count: u32,
    pub playheads: Map<usize, usize>,
    pub undo_available: Set<usize>,
    pub last_error: Option<(i32, Seq<char>)>,
    pub last_overflow: Option<u32>,
    pub link_peers: usize,
    pub link_enabled: bool,
}

pub open spec fn error_view(e: Option<EngineError>) -> Option<(i32, Seq<char>)> {
    match e {
        Some(e) => Some((e.code, e.message@)),
        None => None,
    }
}

impl UiState {
    pub open spec fn transient(self) -> Transient {
        Transient {
            playing: self.playing,
            queued_pattern: self.queued_pattern,
            queued_pattern_quantize: self.queued_pattern_quantize,
            pattern_loop_count: self.pattern_loop_count,
            playheads: self.playheads@,
            undo_available: self.undo_available@,
            last_error: error_view(self.last_error),
            last_overflow: self.last_overflow,
            link_peers: self.link_peers,
            link_enabled: self.link_enabled,
        }
    }
}

/// Stopped, nothing queued, no playheads, no undo, no error, Link off.
pub open spec fn fresh_transient() -> Transient {
    Transient {
        playing: false,
        queued_pattern: None,
        queued_pattern_quantize: None,
        pattern_loop_count: 0,
        playheads: Map::empty(),
        undo_available: Set::empty(),
        last_error: None,
        last_overflow: None,
        link_peers: 0,
        link_enabled: false,
    }
}

/// The transient state after event `ev`, with `session` the mirrored session
/// before it.
pub open spec fn mirrored(t: Transient, ev: EngineEvent, session: Option<Session>) -> Transient {
    match ev {
        EngineEvent::PatternQueued { index, quantize } =>
            Transient { queued_pattern: Some(index), queued_pattern_quantize: Some(quantize), ..t },
        EngineEvent::PatternSwitched { .. } => Transient {
            queued_pattern: None,
            queued_pattern_quantize: None,
            pattern_loop_count: 0,
            playheads: Map::empty(),
            undo_available: Set::empty(),
            ..t
        },
        EngineEvent::PatternCleared { index } => match session {
            Some(s) if index == s.active_pattern_index => Transient { queued_pattern: None, ..t },
            _ => t,
        },
        EngineEvent::PatternLoopCountChanged { count } => Transient { pattern_loop_count: count, ..t },
        EngineEvent::PlayStateChanged { playing } =>
            Transient { playing, pattern_loop_count: if playing { t.pattern_loop_count } else { 0 }, ..t },
        EngineEvent::SyncSourceChanged { source } => Transient { link_enabled: source == SyncSource::Link, ..t },
        EngineEvent::UndoAvailable { track_idx, available } => Transient {
            undo_available: if available { t.undo_available.insert(track_idx) } else { t.undo_available.remove(track_idx) },
            ..t
        },
        EngineEvent::FullSnapshot { .. } => Transient {
            queued_pattern: None,
            queued_pattern_quantize: None,
            pattern_loop_count: 0,
            playheads: Map::empty(),
            undo_available: Set::empty(),
            last_error: None,
            last_overflow: None,
            ..t
        },
        EngineEvent::Error { code, message } => Transient { last_error: Some((code, message@)), ..t },
        EngineEvent::Overflow { dropped } => Transient { last_overflow: Some(dropped), ..t },
        EngineEvent::LinkPeersChanged { count } => Transient { link_peers: count, ..t },
        EngineEvent::LinkEnabledChanged { enabled } => Transient { link_enabled: enabled, ..t },
        _ => t,
    }
}

/// The active pattern of `s`, if its slot holds one.
pub open spec fn active_slot(s: Session) -> Option<Pattern> {
    if s.active_pattern_index < PATTERN_SLOTS { s.patterns@[s.active_pattern_index as int] } else { None }
}

/// `u` is `t` with its steps, length and mute set to the given values.
pub open spec fn track_edited(t: Track, u: Track, steps: Seq<crate::models::Step>, length: usize, muted: bool) -> bool {
    &&& u.id == t.id
    &&& u.midi_note == t.midi_note
    &&& u.speed_ratio == t.speed_ratio
    &&& u.swing_pct == t.swing_pct
    &&& u.steps@ == steps
    &&& u.length == length
    &&& u.muted == muted
}

/// `b` is `a` with track `ti` of the active pattern edited to steps, length
/// and mute given by `steps`, `length`, `muted` of its old value `t`; when
/// there is no such track, `b` is `a`.
pub open spec fn active_track_edited(
    a: Option<Session>,
    b: Option<Session>,
    ti: usize,
    ok: bool,
    edit: spec_fn(Track) -> (Seq<crate::models::Step>, usize, bool),
) -> bool {
    match a {
        Some(sa) if ok && track_at(sa, sa.active_pattern_index as int, ti as int) is Some => {
            let t = track_at(sa, sa.active_pattern_index as int, ti as int)->Some_0;
            let (steps, length, muted) = edit(t);
            &&& b matches Some(sb)
            &&& track_at(sb, sa.active_pattern_index as int, ti as int) matches Some(u)
            &&& track_replaced(sa, sb, sa.active_pattern_index as int, ti as int, u)
            &&& track_edited(t, u, steps, length, muted)
        },
        _ => b == a,
    }
}

/// The mirrored session after event `ev`: `a` before, `b` after.
pub open spec fn session_mirrored(a: Option<Session>, b: Option<Session>, ev: EngineEvent) -> bool {
    match ev {
        EngineEvent::StepChanged { track_idx, step_idx, step } =>
            active_track_edited(a, b, track_idx, step_idx < 16,
                |t: Track| (t.steps@.update(step_idx as int, step), t.length, t.muted)),
        EngineEvent::TrackLengthChanged { track_idx, length } =>
            active_track_edited(a, b, track_idx, true, |t: Track| (t.steps@, length, t.muted)),
        EngineEvent::TrackMutedChanged { track_idx, muted } =>
            active_track_edited(a, b, track_idx, true, |t: Track| (t.steps@, t.length, muted)),
        EngineEvent::TrackAdded { track_idx, track } => match a {
            Some(sa) if active_slot(sa) is Some => {
                let p = active_slot(sa)->Some_0;
                let at = if track_idx < p.tracks@.len() { track_idx as int } else { p.tracks@.len() as int };
                b matches Some(sb) && pattern_content_replaced(sa, sb, sa.active_pattern_index as int,
                    p.tracks@.insert(at, track), p.follow_action)
            },
            _ => b == a,
        },
        EngineEvent::TrackRemoved { track_idx } => match a {
            Some(sa) if active_slot(sa) is Some && track_idx < active_slot(sa)->Some_0.tracks@.len() => {
                let p = active_slot(sa)->Some_0;
                b matches Some(sb) && pattern_content_replaced(sa, sb, sa.active_pattern_index as int,
                    p.tracks@.remove(track_idx as int), p.follow_action)
            },
            _ => b == a,
        },
        EngineEvent::PatternSwitched { index } => match a {
            Some(sa) => b == Some(Session { active_pattern_index: index, ..sa }),
            None => b == a,
        },
        EngineEvent::PatternCleared { index } => match a {
            Some(sa) if index < PATTERN_SLOTS => {
                &&& b matches Some(sb)
                &&& same_settings(sa, sb)
                &&& other_slots_same(sa, sb, index as int)
                &&& sb.patterns@[index as int] is None
            },
            _ => b == a,
        },
        EngineEvent::FollowActionChanged { pattern_idx, action } => match a {
            Some(sa) if pattern_idx < PATTERN_SLOTS && sa.patterns@[pattern_idx as int] is Some => {
                let p = sa.patterns@[pattern_idx as int]->Some_0;
                b matches Some(sb) && pattern_content_replaced(sa, sb, pattern_idx as int, p.tracks@, action)
            },
            _ => b == a,
        },
        EngineEvent::BpmChanged { bpm } => match a {
            Some(sa) => b == Some(Session { bpm, ..sa }),
            None => b == a,
        },
        EngineEvent::SyncSourceChanged { source } => match a {
            Some(sa) => b == Some(Session { sync_source: source, ..sa }),
            None => b == a,
        },
        EngineEvent::FullSnapshot { session } => b matches Some(sb) && sb@ == session@,
        _ => b == a,
    }
}

/// One field of a track, with its new value.
enum TrackField {
    Step { idx: usize, step: crate::models::Step },
    Length(usize),
    Muted(bool),
}

/// The steps, length and mute a track gets from editing `f`.
spec fn field_edit(f: TrackField) -> spec_fn(Track) -> (Seq<crate::models::Step>, usize, bool) {
    |t: Track| match f {
        TrackField::Step { idx, step } => (t.steps@.update(idx as int, step), t.length, t.muted),
        TrackField::Length(length) => (t.steps@, length, t.muted),
        TrackField::Muted(muted) => (t.steps@, t.length, muted),
    }
}

impl UiState {
    /// A mirror with no session yet: stopped, nothing queued, no playheads,
    /// no undo, no error, Link off.
    pub fn new() -> (s: Self)
        ensures
            s.session is None,
            s.transient() == fresh_transient(),
    {
        UiState {
            session: None,
            playing: false,
            queued_pattern: None,
            queued_pattern_quantize: None,
            pattern_loop_count: 0,
            playheads: HashMap::new(),
            undo_available: HashSet::new(),
            last_error: None,
            last_overflow: None,
            link_peers: 0,
            link_enabled: false,
        }
    }

    /// Apply one engine event. `Playhead` leaves the mirror as it is: playheads
    /// are taken in batches through [`UiState::apply_playhead`].
    #[verifier::rlimit(40)]
    pub fn apply(&mut self, ev: &EngineEvent)
        ensures
            final(self).transient() == mirrored(old(self).transient(), *ev, old(self).session),
            session_mirrored(old(self).session, final(self).session, *ev),
            opt_view(final(self).session) == mirror_view(opt_view(old(self).session), *ev),
    {
        let ghost s0 = self.session;
        match ev {
            EngineEvent::StepChanged { track_idx, step_idx, step } => {
                if *step_idx < 16 {
                    self.edit_track(*track_idx, TrackField::Step { idx: *step_idx, step: *step });
                }
            },
            EngineEvent::TrackLengthChanged { track_idx, length } => {
                self.edit_track(*track_idx, TrackField::Length(*length));
            },
            EngineEvent::TrackMutedChanged { track_idx, muted } => {
                self.edit_track(*track_idx, TrackField::Muted(*muted));
            },
            EngineEvent::TrackAdded { track_idx, track } => {
                self.insert_track(*track_idx, *track);
            },
            EngineEvent::TrackRemoved { track_idx } => {
                self.remove_track(*track_idx);
            },
            EngineEvent::PatternQueued { index, quantize } => {
                self.queued_pattern = Some(*index);
                self.queued_pattern_quantize = Some(*quantize);
            },
            EngineEvent::PatternSwitched { index } => {
                let taken = self.session.take();
                match taken {
                    Some(mut s) => {
                        s.active_pattern_index = *index;
                        self.session = Some(s);
                    },
                    None => {},
                }
                self.queued_pattern = None;
                self.queued_pattern_quantize = None;
                self.pattern_loop_count = 0;
                self.playheads.clear();
                self.undo_available.clear();
            },
            EngineEvent::PatternCleared { index } => {
                let mut clear_queued = false;
                let taken = self.session.take();
                match taken {
                    Some(mut s) => {
                        if *index < PATTERN_SLOTS {
                            s.patterns[*index] = None;
                        }
                        clear_queued = *index == s.active_pattern_index;
                        self.session = Some(s);
                    },
                    None => {},
                }
                if clear_queued {
                    self.queued_pattern = None;
                }
            },
            EngineEvent::PatternLoopCountChanged { count } => {
                self.pattern_loop_count = *count;
            },
            EngineEvent::FollowActionChanged { pattern_idx, action } => {
                self.set_follow_action(*pattern_idx, *action);
            },
            EngineEvent::Playhead { .. } => {},
            EngineEvent::PlayStateChanged { playing } => {
                self.playing = *playing;
                if !*playing {
                    self.pattern_loop_count = 0;
                }
            },
            EngineEvent::BpmChanged { bpm } => {
                let taken = self.session.take();
                match taken {
                    Some(mut s) => {
                        s.bpm = *bpm;
                        self.session = Some(s);
                    },
                    None => {},
                }
            },
            EngineEvent::SyncSourceChanged { source } => {
                let taken = self.session.take();
                match taken {
                    Some(mut s) => {
                        s.sync_source = *source;
                        self.session = Some(s);
                    },
                    None => {},
                }
                self.link_enabled = match source {
                    SyncSource::Link => true,
                    _ => false,
                };
            },
            EngineEvent::UndoAvailable { track_idx, available } => {
                if *available {
                    self.undo_available.insert(*track_idx);
                } else {
                    self.undo_available.remove(track_idx);
                }
            },
            EngineEvent::FullSnapshot { session } => {
                self.session = Some(copy_session(session));
                self.queued_pattern = None;
                self.queued_pattern_quantize = None;
                self.pattern_loop_count = 0;
                self.playheads.clear();
                self.undo_available.clear();
                self.last_error = None;
                self.last_overflow = None;
            },
            EngineEvent::Serialized { .. } => {},
            EngineEvent::Error { code, message } => {
                self.last_error = Some(EngineError { code: *code, message: message.clone() });
            },
            EngineEvent::Overflow { dropped } => {
                self.last_overflow = Some(*dropped);
            },
            EngineEvent::LinkPeersChanged { count } => {
                self.link_peers = *count;
            },
            EngineEvent::LinkEnabledChanged { enabled } => {
                self.link_enabled = *enabled;
            },
        }
        proof {
            lemma_mirrored_view(s0, self.session, *ev);
        }
        assert(self.transient().undo_available =~= mirrored(old(self).transient(), *ev, s0).undo_available);
        assert(self.transient().playheads =~= mirrored(old(self).transient(), *ev, s0).playheads);
    }

    /// Record the latest step of a track (the last one of a batch wins).
    pub fn apply_playhead(&mut self, track_idx: usize, step_idx: usize)
        ensures
            final(self).playheads@ == old(self).playheads@.insert(track_idx, step_idx),
            final(self).session == old(self).session,
            final(self).transient() == (Transient { playheads: old(self).playheads@.insert(track_idx, step_idx), ..old(self).transient() }),
    {
        self.playheads.insert(track_idx, step_idx);
    }

    /// The active pattern, when there is a session and its active slot holds one.
    pub fn active_pattern(&self) -> (r: Option<&Pattern>)
        ensures
            r == match self.session {
                Some(s) => match active_slot(s) {
                    Some(p) => Some(&p),
                    None => None,
                },
                None => None::<&Pattern>,
            },
    {
        match &self.session {
            Some(s) => {
                let i = s.active_pattern_index;
                if i < PATTERN_SLOTS {
                    match &s.patterns[i] {
                        Some(p) => Some(p),
                        None => None,
                    }
                } else {
                    None
                }
            },
            None => None,
        }
    }

    /// The tracks of the active pattern (none without one).
    pub fn tracks(&self) -> (r: &[Track])
        ensures
            r@ == shown_tracks(*self),
    {
        match self.active_pattern() {
            Some(p) => p.tracks.as_slice(),
            None => &[],
        }
    }

    /// The tempo's `f64` bits; 120 BPM before the first session arrives.
    pub fn bpm(&self) -> (r: u64)
        ensures
            r == match self.session {
                Some(s) => s.bpm,
                None => DEFAULT_BPM_BITS,
            },
    {
        match &self.session {
            Some(s) => s.bpm,
            None => DEFAULT_BPM_BITS,
        }
    }

    /// The sync source; free-running before the first session arrives.
    pub fn sync_source(&self) -> (r: SyncSource)
        ensures
            r == match self.session {
                Some(s) => s.sync_source,
                None => SyncSource::Free,
            },
    {
        match &self.session {
            Some(s) => s.sync_source,
            None => SyncSource::Free,
        }
    }

    /// The global swing's `f32` bits; 0.0 before the first session arrives.
    pub fn swing_pct(&self) -> (r: u32)
        ensures
            r == match self.session {
                Some(s) => s.global_swing_pct,
                None => 0,
            },
    {
        match &self.session {
            Some(s) => s.global_swing_pct,
            None => 0,
        }
    }

    /// The humanize timing amount's `f32` bits; 0.0 before the first session.
    pub fn humanize_timing(&self) -> (r: u32)
        ensures
            r == match self.session {
                Some(s) => s.humanize_timing,
                None => 0,
            },
    {
        match &self.session {
            Some(s) => s.humanize_timing,
            None => 0,
        }
    }

    /// The humanize velocity amount's `f32` bits; 0.0 before the first session.
    pub fn humanize_velocity(&self) -> (r: u32)
        ensures
            r == match self.session {
                Some(s) => s.humanize_velocity,
                None => 0,
            },
    {
        match &self.session {
            Some(s) => s.humanize_velocity,
            None => 0,
        }
    }

    /// The active pattern index; 0 before the first session arrives.
    pub fn active_pattern_index(&self) -> (r: usize)
        ensures
            r == match self.session {
                Some(s) => s.active_pattern_index,
                None => 0,
            },
    {
        match &self.session {
            Some(s) => s.active_pattern_index,
            None => 0,
        }
    }

    /// Edit field `f` of track `ti` of the active pattern; nothing happens
    /// when the track does not exist.
    fn edit_track(&mut self, ti: usize, f: TrackField)
        requires
            f matches TrackField::Step { idx, .. } ==> idx < 16,
        ensures
            final(self).transient() == old(self).transient(),
            active_track_edited(old(self).session, final(self).session, ti, true, field_edit(f)),
    {
        let taken = self.session.take();
        match taken {
            Some(mut s) => {
                let ai = s.active_pattern_index;
                match get_track(&s, ai, ti) {
                    Some(t) => {
                        let mut u = t;
                        match f {
                            TrackField::Step { idx, step } => {
                                u.steps[idx] = step;
                            },
                            TrackField::Length(length) => {
                                u.length = length;
                            },
                            TrackField::Muted(muted) => {
                                u.muted = muted;
                            },
                        }
                        replace_track(&mut s, ai, ti, u);
                        assert(track_at(s, ai as int, ti as int) == Some(u));
                    },
                    None => {},
                }
                self.session = Some(s);
            },
            None => {},
        }
    }

    fn insert_track(&mut self, idx: usize, track: Track)
        ensures
            final(self).transient() == old(self).transient(),
            session_mirrored(old(self).session, final(self).session, EngineEvent::TrackAdded { track_idx: idx, track }),
    {
        let taken = self.session.take();
        match taken {
            Some(mut s) => {
                let ai = s.active_pattern_index;
                if ai < PATTERN_SLOTS && s.patterns[ai].is_some() {
                    let slot = s.patterns[ai].take();
                    match slot {
                        Some(mut p) => {
                            let at = if idx < p.tracks.len() { idx } else { p.tracks.len() };
                            p.tracks.insert(at, track);
                            s.patterns[ai] = Some(p);
                        },
                        None => {},
                    }
                }
                self.session = Some(s);
            },
            None => {},
        }
    }

    fn remove_track(&mut self, idx: usize)
        ensures
            final(self).transient() == old(self).transient(),
            session_mirrored(old(self).session, final(self).session, EngineEvent::TrackRemoved { track_idx: idx }),
    {
        let taken = self.session.take();
        match taken {
            Some(mut s) => {
                let ai = s.active_pattern_index;
                let present = ai < PATTERN_SLOTS && match &s.patterns[ai] {
                    Some(p) => idx < p.tracks.len(),
                    None => false,
                };
                if present {
                    let slot = s.patterns[ai].take();
                    match slot {
                        Some(mut p) => {
                            let _ = p.tracks.remove(idx);
                            s.patterns[ai] = Some(p);
                        },
                        None => {},
                    }
                }
                self.session = Some(s);
            },
            None => {},
        }
    }

    fn set_follow_action(&mut self, pi: usize, action: FollowAction)
        ensures
            final(self).transient() == old(self).transient(),
            session_mirrored(old(self).session, final(self).session, EngineEvent::FollowActionChanged { pattern_idx: pi, action }),
    {
        let taken = self.session.take();
        match taken {
            Some(mut s) => {
                if pi < PATTERN_SLOTS && s.patterns[pi].is_some() {
                    let slot = s.patterns[pi].take();
                    match slot {
                        Some(mut p) => {
                            p.follow_action = action;
                            s.patterns[pi] = Some(p);
                        },
                        None => {},
                    }
                }
                self.session = Some(s);
            },
            None => {},
        }
    }
}

impl Default for UiState {
    fn default() -> (s: Self)
        ensures
            s.session is None,
            s.transient() == fresh_transient(),
    {
        UiState::new()
    }
}

} // verus!
