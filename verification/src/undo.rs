//! One-deep undo, per track and per pattern slot.
//!
//! A track snapshot captures `steps`, `length` and `speed_ratio` (the fields
//! Roll, Vary, Cut, Paste and Trash can change); `midi_note` is never captured.
//! A pattern snapshot captures the tracks and the follow action, never the id.

use vstd::prelude::*;
use crate::models::{
    FollowAction, Pattern, Session, Step, Track, MAX_TRACKS, PATTERN_SLOTS, get_track, replace_track,
    copy_tracks, replace_pattern_content, track_at, track_replaced, pattern_content_replaced,
};

verus! {

/// What one undo snapshot captures for a track.
#[derive(Clone, Copy)]
pub struct TrackSnapshot {
    pub steps: [Step; 16],
    pub length: usize,
    pub speed_ratio: u32,
}

/// `t` with the snapshotted fields of `snap` written back.
pub open spec fn restored(t: Track, snap: TrackSnapshot) -> Track {
    Track { steps: snap.steps, length: snap.length, speed_ratio: snap.speed_ratio, ..t }
}

impl TrackSnapshot {
    pub fn of(track: &Track) -> (s: Self)
        ensures
            s.steps == track.steps,
            s.length == track.length,
            s.speed_ratio == track.speed_ratio,
    {
        TrackSnapshot { steps: track.steps, length: track.length, speed_ratio: track.speed_ratio }
    }
}

/// What one pattern snapshot captures: the tracks and the follow action.
#[derive(Clone)]
pub struct PatternSnapshot {
    pub tracks: Vec<Track>,
    pub follow_action: FollowAction,
}

impl PatternSnapshot {
    pub fn of(p: &Pattern) -> (s: Self)
        ensures
            s.tracks@ == p.tracks@,
            s.follow_action == p.follow_action,
    {
        PatternSnapshot { tracks: copy_tracks(&p.tracks), follow_action: p.follow_action }
    }
}

/// The undo store: one optional snapshot per track index and per pattern slot.
pub struct Undo {
    slots: [Option<TrackSnapshot>; 8],
    pattern_slots: [Option<PatternSnapshot>; 9],
}

impl Undo {
    /// The per-track snapshots.
    pub closed spec fn track_slots(&self) -> Seq<Option<TrackSnapshot>> {
        self.slots@
    }

    /// The per-pattern snapshots.
    pub closed spec fn pattern_slots(&self) -> Seq<Option<PatternSnapshot>> {
        self.pattern_slots@
    }

    pub proof fn lemma_slot_counts(&self)
        ensures
            self.track_slots().len() == MAX_TRACKS,
            self.pattern_slots().len() == PATTERN_SLOTS,
    {
    }
}

impl Default for Undo {
    fn default() -> (u: Self)
        ensures
            forall|i: int| 0 <= i < MAX_TRACKS ==> #[trigger] u.track_slots()[i] is None,
            forall|i: int| 0 <= i < PATTERN_SLOTS ==> #[trigger] u.pattern_slots()[i] is None,
    {
        Undo {
            slots: [None, None, None, None, None, None, None, None],
            pattern_slots: [None, None, None, None, None, None, None, None, None],
        }
    }
}

impl Undo {
    /// Snapshot a track before a mutation. Out-of-range indices are ignored.
    pub fn push(&mut self, track_idx: usize, track: &Track)
        ensures
            track_idx < MAX_TRACKS ==> final(self).track_slots() == old(self).track_slots().update(
                track_idx as int,
                Some(TrackSnapshot { steps: track.steps, length: track.length, speed_ratio: track.speed_ratio }),
            ),
            track_idx >= MAX_TRACKS ==> final(self).track_slots() == old(self).track_slots(),
            final(self).pattern_slots() == old(self).pattern_slots(),
    {
        if track_idx < MAX_TRACKS {
            self.slots[track_idx] = Some(TrackSnapshot::of(track));
        }
    }

    /// Restore track `idx` of the active pattern from its snapshot. The
    /// snapshot is consumed whenever `idx` is in range; the restore happens
    /// (and `true` is returned) only when a snapshot existed and the active
    /// pattern has a track `idx`.
    pub fn undo(&mut self, s: &mut Session, idx: usize) -> (r: bool)
        ensures
            r == (idx < MAX_TRACKS && old(self).track_slots()[idx as int] is Some
                && track_at(*old(s), old(s).active_pattern_index as int, idx as int) is Some),
            r ==> track_replaced(
                *old(s),
                *final(s),
                old(s).active_pattern_index as int,
                idx as int,
                restored(
                    track_at(*old(s), old(s).active_pattern_index as int, idx as int)->Some_0,
                    old(self).track_slots()[idx as int]->Some_0,
                ),
            ),
            !r ==> *final(s) == *old(s),
            idx < MAX_TRACKS ==> final(self).track_slots() == old(self).track_slots().update(idx as int, None),
            idx >= MAX_TRACKS ==> final(self).track_slots() == old(self).track_slots(),
            final(self).pattern_slots() == old(self).pattern_slots(),
    {
        if idx >= MAX_TRACKS {
            return false;
        }
        let taken = self.slots[idx].take();
        let snap = match taken {
            Some(snap) => snap,
            None => {
                return false;
            },
        };
        let ai = s.active_pattern_index;
        match get_track(s, ai, idx) {
            Some(t) => {
                replace_track(s, ai, idx, Track { steps: snap.steps, length: snap.length, speed_ratio: snap.speed_ratio, ..t });
                true
            },
            None => false,
        }
    }

    pub fn available(&self, idx: usize) -> (r: bool)
        ensures
            r == (idx < MAX_TRACKS && self.track_slots()[idx as int] is Some),
    {
        idx < MAX_TRACKS && self.slots[idx].is_some()
    }

    /// Clear every per-track slot and report which were occupied.
    pub fn take_occupied(&mut self) -> (out: [bool; 8])
        ensures
            forall|i: int| 0 <= i < MAX_TRACKS ==> #[trigger] out@[i] == old(self).track_slots()[i] is Some,
            forall|i: int| 0 <= i < MAX_TRACKS ==> #[trigger] final(self).track_slots()[i] is None,
            final(self).pattern_slots() == old(self).pattern_slots(),
    {
        self.clear_tracks()
    }

    /// Clear every per-track slot (stale after a whole-pattern change) and report
    /// which were occupied.
    pub fn clear_tracks(&mut self) -> (out: [bool; 8])
        ensures
            forall|i: int| 0 <= i < MAX_TRACKS ==> #[trigger] out@[i] == old(self).track_slots()[i] is Some,
            forall|i: int| 0 <= i < MAX_TRACKS ==> #[trigger] final(self).track_slots()[i] is None,
            final(self).pattern_slots() == old(self).pattern_slots(),
    {
        let mut out = [false; 8];
        let mut i: usize = 0;
        while i < MAX_TRACKS
            invariant
                i <= MAX_TRACKS,
                self.slots@.len() == MAX_TRACKS,
                self.pattern_slots@ == old(self).pattern_slots@,
                forall|j: int| 0 <= j < i ==> #[trigger] out@[j] == old(self).slots@[j] is Some,
                forall|j: int| i <= j < MAX_TRACKS ==> !(#[trigger] out@[j]),
                forall|j: int| 0 <= j < i ==> #[trigger] self.slots@[j] is None,
                forall|j: int| i <= j < MAX_TRACKS ==> #[trigger] self.slots@[j] == old(self).slots@[j],
            decreases MAX_TRACKS - i,
        {
            if self.slots[i].is_some() {
                out[i] = true;
                self.slots[i] = None;
            }
            i = i + 1;
        }
        out
    }

    /// Snapshot a whole pattern before a pattern-level mutation. Out-of-range
    /// indices are ignored.
    pub fn push_pattern(&mut self, index: usize, p: &Pattern)
        ensures
            index < PATTERN_SLOTS ==> (final(self).pattern_slots()[index as int] matches Some(snap)
                && snap.tracks@ == p.tracks@ && snap.follow_action == p.follow_action),
            index < PATTERN_SLOTS ==> forall|k: int| 0 <= k < PATTERN_SLOTS && k != index ==>
                #[trigger] final(self).pattern_slots()[k] == old(self).pattern_slots()[k],
            index < PATTERN_SLOTS ==> final(self).pattern_slots().len() == PATTERN_SLOTS,
            index >= PATTERN_SLOTS ==> final(self).pattern_slots() == old(self).pattern_slots(),
            final(self).track_slots() == old(self).track_slots(),
    {
        if index < PATTERN_SLOTS {
            self.pattern_slots[index] = Some(PatternSnapshot::of(p));
        }
    }

    /// Restore slot `index`'s tracks and follow action from its snapshot (the
    /// id stays). Nothing is consumed when the slot is out of range or empty.
    pub fn undo_pattern(&mut self, s: &mut Session, index: usize) -> (r: bool)
        ensures
            r == (index < PATTERN_SLOTS && old(s).patterns@[index as int] is Some
                && old(self).pattern_slots()[index as int] is Some),
            r ==> pattern_content_replaced(
                *old(s),
                *final(s),
                index as int,
                old(self).pattern_slots()[index as int]->Some_0.tracks@,
                old(self).pattern_slots()[index as int]->Some_0.follow_action,
            ),
            !r ==> *final(s) == *old(s),
            (index < PATTERN_SLOTS && old(s).patterns@[index as int] is Some)
                ==> final(self).pattern_slots() == old(self).pattern_slots().update(index as int, None),
            !(index < PATTERN_SLOTS && old(s).patterns@[index as int] is Some)
                ==> final(self).pattern_slots() == old(self).pattern_slots(),
            final(self).track_slots() == old(self).track_slots(),
    {
        if index >= PATTERN_SLOTS {
            return false;
        }
        if s.patterns[index].is_none() {
            return false;
        }
        let taken = self.pattern_slots[index].take();
        match taken {
            Some(snap) => {
                replace_pattern_content(s, index, snap.tracks, snap.follow_action);
                true
            },
            None => false,
        }
    }

    pub fn available_pattern(&self, index: usize) -> (r: bool)
        ensures
            r == (index < PATTERN_SLOTS && self.pattern_slots()[index as int] is Some),
    {
        index < PATTERN_SLOTS && self.pattern_slots[index].is_some()
    }

    /// Clear every pattern slot and report which were occupied.
    pub fn take_occupied_patterns(&mut self) -> (out: [bool; 9])
        ensures
            forall|i: int| 0 <= i < PATTERN_SLOTS ==> #[trigger] out@[i] == old(self).pattern_slots()[i] is Some,
            forall|i: int| 0 <= i < PATTERN_SLOTS ==> #[trigger] final(self).pattern_slots()[i] is None,
            final(self).track_slots() == old(self).track_slots(),
    {
        let mut out = [false; 9];
        let mut i: usize = 0;
        while i < PATTERN_SLOTS
            invariant
                i <= PATTERN_SLOTS,
                self.pattern_slots@.len() == PATTERN_SLOTS,
                self.slots@ == old(self).slots@,
                forall|j: int| 0 <= j < i ==> #[trigger] out@[j] == old(self).pattern_slots@[j] is Some,
                forall|j: int| i <= j < PATTERN_SLOTS ==> !(#[trigger] out@[j]),
                forall|j: int| 0 <= j < i ==> #[trigger] self.pattern_slots@[j] is None,
                forall|j: int| i <= j < PATTERN_SLOTS ==> #[trigger] self.pattern_slots@[j] == old(self).pattern_slots@[j],
            decreases PATTERN_SLOTS - i,
        {
            if self.pattern_slots[i].is_some() {
                out[i] = true;
                self.pattern_slots[i] = None;
            }
            i = i + 1;
        }
        out
    }
}

/// Undo after a push gives the track back: whatever a tool did to the steps,
/// length and speed ratio of `t` (giving `t2`, same id, note, swing and mute),
/// restoring the snapshot pushed for `t` yields `t`.
pub proof fn law_undo_restores_pushed_track(t: Track, t2: Track)
    requires
        t2.id == t.id,
        t2.midi_note == t.midi_note,
        t2.swing_pct == t.swing_pct,
        t2.muted == t.muted,
    ensures
        restored(t2, TrackSnapshot { steps: t.steps, length: t.length, speed_ratio: t.speed_ratio }) == t,
{
}

/// Undo after a pattern push gives the pattern back: a snapshot of `p` pushed
/// for slot `i`, restored into a session whose slot `i` still has `p`'s id,
/// leaves in slot `i` a pattern equal to `p` as a value.
pub proof fn law_undo_restores_pushed_pattern(p: Pattern, s1: Session, s2: Session, i: int, snap: PatternSnapshot)
    requires
        0 <= i < PATTERN_SLOTS,
        snap.tracks@ == p.tracks@,
        snap.follow_action == p.follow_action,
        s1.patterns@[i] matches Some(q) && q.id == p.id,
        pattern_content_replaced(s1, s2, i, snap.tracks@, snap.follow_action),
    ensures
        s2.patterns@[i] matches Some(r) && r@ == p@,
{
}

} // verus!
