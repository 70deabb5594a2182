//! Track and pattern clipboards. A track clip carries steps, length and speed
//! ratio but never the midi note; a pattern clip carries the tracks and the
//! follow action but never the pattern id, so a paste keeps the target's id.

use vstd::prelude::*;
use crate::models::{
    FollowAction, Session, Step, Track, PATTERN_SLOTS, default_step, empty_steps, get_track, replace_track,
    copy_tracks, replace_pattern_content, track_at, track_replaced, pattern_content_replaced,
};

verus! {

#[derive(Clone, Copy)]
pub struct TrackClipboard {
    pub steps: [Step; 16],
    pub length: usize,
    pub speed_ratio: u32,
}

#[derive(Clone)]
pub struct PatternClipboard {
    pub tracks: Vec<Track>,
    pub follow_action: FollowAction,
}

/// `b` is `a` with all sixteen steps reset to the empty step.
pub open spec fn steps_cleared(a: Track, b: Track) -> bool {
    &&& b == Track { steps: b.steps, ..a }
    &&& forall|i: int| 0 <= i < 16 ==> #[trigger] b.steps@[i] == default_step()
}

/// `b` is `a` with every track's steps reset.
pub open spec fn all_steps_cleared(a: Seq<Track>, b: Seq<Track>) -> bool {
    &&& b.len() == a.len()
    &&& forall|j: int| 0 <= j < a.len() ==> steps_cleared(#[trigger] a[j], b[j])
}

/// `t` with the clip's steps, length and speed ratio pasted in.
pub open spec fn pasted(t: Track, c: TrackClipboard) -> Track {
    Track { steps: c.steps, length: c.length, speed_ratio: c.speed_ratio, ..t }
}

/// The clip a copy of `t` makes.
pub open spec fn clip_of(t: Track) -> TrackClipboard {
    TrackClipboard { steps: t.steps, length: t.length, speed_ratio: t.speed_ratio }
}

pub struct Clipboard {
    track: Option<TrackClipboard>,
    pattern: Option<PatternClipboard>,
}

impl Clipboard {
    pub closed spec fn track_clip(&self) -> Option<TrackClipboard> {
        self.track
    }

    pub closed spec fn pattern_clip(&self) -> Option<PatternClipboard> {
        self.pattern
    }
}

impl Default for Clipboard {
    fn default() -> (c: Self)
        ensures
            c.track_clip() is None,
            c.pattern_clip() is None,
    {
        Clipboard { track: None, pattern: None }
    }
}

/// Reset the steps of every track of `tracks`.
fn clear_all_steps(tracks: &mut Vec<Track>)
    ensures
        all_steps_cleared(old(tracks)@, final(tracks)@),
{
    let mut j: usize = 0;
    while j < tracks.len()
        invariant
            j <= tracks.len(),
            tracks@.len() == old(tracks)@.len(),
            forall|k: int| 0 <= k < j ==> steps_cleared(#[trigger] old(tracks)@[k], tracks@[k]),
            forall|k: int| j <= k < tracks@.len() ==> #[trigger] tracks@[k] == old(tracks)@[k],
        decreases tracks.len() - j,
    {
        let t = tracks[j];
        tracks.set(j, Track { steps: empty_steps(), ..t });
        j = j + 1;
    }
}

impl Clipboard {
    /// Whether the pattern clipboard holds a pattern.
    pub fn has_pattern(&self) -> (r: bool)
        ensures
            r == self.pattern_clip() is Some,
    {
        self.pattern.is_some()
    }

    /// Copy track `idx` of the active pattern, then reset its steps.
    pub fn cut(&mut self, s: &mut Session, idx: usize)
        requires
            old(s).active_pattern_index < PATTERN_SLOTS,
        ensures
            final(self).pattern_clip() == old(self).pattern_clip(),
            match track_at(*old(s), old(s).active_pattern_index as int, idx as int) {
                Some(t) => final(self).track_clip() == Some(clip_of(t)) && exists|t2: Track|
                    steps_cleared(t, t2) && track_replaced(*old(s), *final(s), old(s).active_pattern_index as int, idx as int, t2),
                None => final(self).track_clip() == old(self).track_clip() && *final(s) == *old(s),
            },
    {
        self.copy(s, idx);
        let ai = s.active_pattern_index;
        match get_track(s, ai, idx) {
            Some(t) => {
                let t2 = Track { steps: empty_steps(), ..t };
                replace_track(s, ai, idx, t2);
                assert(steps_cleared(t, t2));
            },
            None => {},
        }
    }

    /// Copy track `idx` of the active pattern (steps, length, speed ratio).
    pub fn copy(&mut self, s: &Session, idx: usize)
        requires
            s.active_pattern_index < PATTERN_SLOTS,
        ensures
            final(self).pattern_clip() == old(self).pattern_clip(),
            match track_at(*s, s.active_pattern_index as int, idx as int) {
                Some(t) => final(self).track_clip() == Some(clip_of(t)),
                None => final(self).track_clip() == old(self).track_clip(),
            },
    {
        match get_track(s, s.active_pattern_index, idx) {
            Some(t) => {
                self.track = Some(TrackClipboard { steps: t.steps, length: t.length, speed_ratio: t.speed_ratio });
            },
            None => {},
        }
    }

    /// Paste the track clip onto track `idx` of the active pattern; its
    /// `midi_note` (and id, swing, mute) stay. `true` iff it pasted.
    pub fn paste(&self, s: &mut Session, idx: usize) -> (r: bool)
        requires
            old(s).active_pattern_index < PATTERN_SLOTS,
        ensures
            r == (self.track_clip() is Some && track_at(*old(s), old(s).active_pattern_index as int, idx as int) is Some),
            r ==> track_replaced(
                *old(s),
                *final(s),
                old(s).active_pattern_index as int,
                idx as int,
                pasted(track_at(*old(s), old(s).active_pattern_index as int, idx as int)->Some_0, self.track_clip()->Some_0),
            ),
            !r ==> *final(s) == *old(s),
    {
        let cb = match self.track {
            Some(cb) => cb,
            None => {
                return false;
            },
        };
        let ai = s.active_pattern_index;
        match get_track(s, ai, idx) {
            Some(t) => {
                replace_track(s, ai, idx, Track { steps: cb.steps, length: cb.length, speed_ratio: cb.speed_ratio, ..t });
                true
            },
            None => false,
        }
    }

    /// Copy pattern slot `idx` (tracks and follow action).
    pub fn copy_pattern(&mut self, s: &Session, idx: usize)
        ensures
            final(self).track_clip() == old(self).track_clip(),
            (idx < PATTERN_SLOTS && s.patterns@[idx as int] is Some) ==> (final(self).pattern_clip() matches Some(c)
                && c.tracks@ == s.patterns@[idx as int]->Some_0.tracks@
                && c.follow_action == s.patterns@[idx as int]->Some_0.follow_action),
            !(idx < PATTERN_SLOTS && s.patterns@[idx as int] is Some) ==> final(self).pattern_clip() == old(self).pattern_clip(),
    {
        if idx < PATTERN_SLOTS {
            match &s.patterns[idx] {
                Some(p) => {
                    self.pattern = Some(PatternClipboard { tracks: copy_tracks(&p.tracks), follow_action: p.follow_action });
                },
                None => {},
            }
        }
    }

    /// Copy pattern slot `idx`, then reset every track's steps (the slot stays
    /// filled). `true` iff the slot existed.
    pub fn cut_pattern(&mut self, s: &mut Session, idx: usize) -> (r: bool)
        ensures
            r == (idx < PATTERN_SLOTS && old(s).patterns@[idx as int] is Some),
            final(self).track_clip() == old(self).track_clip(),
            r ==> (final(self).pattern_clip() matches Some(c)
                && c.tracks@ == old(s).patterns@[idx as int]->Some_0.tracks@
                && c.follow_action == old(s).patterns@[idx as int]->Some_0.follow_action),
            r ==> exists|ts: Seq<Track>| all_steps_cleared(old(s).patterns@[idx as int]->Some_0.tracks@, ts)
                && pattern_content_replaced(*old(s), *final(s), idx as int, ts,
                    old(s).patterns@[idx as int]->Some_0.follow_action),
            !r ==> final(self).pattern_clip() == old(self).pattern_clip() && *final(s) == *old(s),
    {
        self.copy_pattern(s, idx);
        Self::clear_pattern(s, idx)
    }

    /// Paste the pattern clip into slot `idx`: tracks and follow action are
    /// overwritten, the target's id stays. `true` iff it pasted.
    pub fn paste_pattern(&self, s: &mut Session, idx: usize) -> (r: bool)
        ensures
            r == (self.pattern_clip() is Some && idx < PATTERN_SLOTS && old(s).patterns@[idx as int] is Some),
            r ==> pattern_content_replaced(*old(s), *final(s), idx as int,
                self.pattern_clip()->Some_0.tracks@, self.pattern_clip()->Some_0.follow_action),
            !r ==> *final(s) == *old(s),
    {
        let cb = match &self.pattern {
            Some(cb) => cb,
            None => {
                return false;
            },
        };
        if idx < PATTERN_SLOTS && s.patterns[idx].is_some() {
            replace_pattern_content(s, idx, copy_tracks(&cb.tracks), cb.follow_action);
            true
        } else {
            false
        }
    }

    /// Reset every track's steps in slot `idx` (the slot stays filled). `true`
    /// iff the slot existed.
    pub fn clear_pattern(s: &mut Session, idx: usize) -> (r: bool)
        ensures
            r == (idx < PATTERN_SLOTS && old(s).patterns@[idx as int] is Some),
            r ==> exists|ts: Seq<Track>| all_steps_cleared(old(s).patterns@[idx as int]->Some_0.tracks@, ts)
                && pattern_content_replaced(*old(s), *final(s), idx as int, ts,
                    old(s).patterns@[idx as int]->Some_0.follow_action),
            !r ==> *final(s) == *old(s),
    {
        if idx >= PATTERN_SLOTS {
            return false;
        }
        match &s.patterns[idx] {
            Some(p) => {
                let mut tracks = copy_tracks(&p.tracks);
                let fa = p.follow_action;
                clear_all_steps(&mut tracks);
                replace_pattern_content(s, idx, tracks, fa);
                true
            },
            None => false,
        }
    }
}

/// A cut or a trash keeps a track's length, note, speed ratio, swing, mute
/// and id; only its steps are emptied.
pub proof fn law_cleared_keeps_track_settings(a: Track, b: Track)
    requires
        steps_cleared(a, b),
    ensures
        b.length == a.length,
        b.midi_note == a.midi_note,
        b.speed_ratio == a.speed_ratio,
        b.swing_pct == a.swing_pct,
        b.muted == a.muted,
        b.id == a.id,
        forall|i: int| 0 <= i < 16 ==> !(#[trigger] b.steps@[i]).active,
{
}

/// Copying track `src` and pasting onto track `dst` gives `dst` the steps,
/// length and speed ratio of `src`, and leaves its note, id, swing and mute.
pub proof fn law_copy_then_paste(src: Track, dst: Track)
    ensures
        pasted(dst, clip_of(src)).steps == src.steps,
        pasted(dst, clip_of(src)).length == src.length,
        pasted(dst, clip_of(src)).speed_ratio == src.speed_ratio,
        pasted(dst, clip_of(src)).midi_note == dst.midi_note,
        pasted(dst, clip_of(src)).id == dst.id,
        pasted(dst, clip_of(src)).swing_pct == dst.swing_pct,
        pasted(dst, clip_of(src)).muted == dst.muted,
{
}

/// Clearing a pattern keeps its track count and every track's settings,
/// with no step left active.
pub proof fn law_clear_pattern_keeps_tracks(a: Seq<Track>, b: Seq<Track>)
    requires
        all_steps_cleared(a, b),
    ensures
        b.len() == a.len(),
        forall|j: int| 0 <= j < a.len() ==> (#[trigger] b[j]).length == a[j].length && b[j].midi_note == a[j].midi_note
            && b[j].speed_ratio == a[j].speed_ratio && b[j].id == a[j].id,
        forall|j: int, i: int| 0 <= j < a.len() && 0 <= i < 16 ==> !(#[trigger] b[j].steps@[i]).active,
{
    assert forall|j: int, i: int| 0 <= j < a.len() && 0 <= i < 16 implies !(#[trigger] b[j].steps@[i]).active by {
        assert(steps_cleared(a[j], b[j]));
    }
}

/// A pattern pasted from a clip copied off slot `src` holds the source's
/// tracks and follow action and keeps the target's id: with `s1` the session
/// after the paste into `dst`, whatever slot the source was.
pub proof fn law_pattern_copy_then_paste(s0: Session, s1: Session, src: int, dst: int, clip: PatternClipboard)
    requires
        0 <= src < PATTERN_SLOTS,
        0 <= dst < PATTERN_SLOTS,
        s0.patterns@[src] is Some,
        clip.tracks@ == s0.patterns@[src]->Some_0.tracks@,
        clip.follow_action == s0.patterns@[src]->Some_0.follow_action,
        pattern_content_replaced(s0, s1, dst, clip.tracks@, clip.follow_action),
    ensures
        s1.patterns@[dst] matches Some(q) && q.tracks@ == s0.patterns@[src]->Some_0.tracks@
            && q.follow_action == s0.patterns@[src]->Some_0.follow_action
            && q.id == s0.patterns@[dst]->Some_0.id,
{
}

} // verus!
