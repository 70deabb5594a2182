//! The engine core: the published session, the MIDI ring, transport and sync
//! counters, undo, clipboard and scheduler; the command interpreter that
//! turns one command into the next state plus the events and effects to
//! deliver; the per-16th tick; and the quantize-boundary scheduler check.

use vstd::prelude::*;
use std::collections::hash_map::DefaultHasher;
use std::hash::{Hash, Hasher};
use vstd::std_specs::hash::DefaultHasherAdditionalSpecFns;
use crate::algorithms::roll::{roll, roll_from};
use crate::algorithms::strength::Strength;
use crate::algorithms::vary::{vary, vary_from, has_accent};
use crate::clipboard::Clipboard;
use crate::clock::{Rng, RNG_ZERO_SEED};
use crate::command::Command;
use crate::event::EngineEvent;
use crate::midi_out::{MidiOutRing, midi_out_ring, midi_ring_contents, MIDI_RING_DEPTH};
use crate::models::{
    Pattern, Session, SessionView, Track, MAX_TRACKS, MIN_TRACKS, PATTERN_SLOTS, STEP_COUNT, session_valid,
    pattern_valid, copy_session, track_at, get_track, replace_track, track_replaced,
};
use crate::scheduler::Scheduler;
use crate::serde_ext::{SessionEnvelope, SESSION_FORMAT_VERSION};
use crate::undo::Undo;

verus! {

/// Check an untrusted session before publishing it: the active index names a
/// slot, every present pattern has 4..=8 tracks, and every track's length is
/// in 1..=16.
pub fn validate_session(s: &Session) -> (r: bool)
    ensures
        r == session_valid(*s),
{
    if s.active_pattern_index >= PATTERN_SLOTS {
        return false;
    }
    let mut i: usize = 0;
    while i < PATTERN_SLOTS
        invariant
            i <= PATTERN_SLOTS,
            s.patterns@.len() == PATTERN_SLOTS,
            forall|k: int| 0 <= k < i ==> (#[trigger] s.patterns@[k] matches Some(p) ==> pattern_valid(p)),
        decreases PATTERN_SLOTS - i,
    {
        match &s.patterns[i] {
            Some(p) => {
                if p.tracks.len() < MIN_TRACKS || p.tracks.len() > MAX_TRACKS {
                    assert(!pattern_valid(*p));
                    return false;
                }
                let mut j: usize = 0;
                while j < p.tracks.len()
                    invariant
                        j <= p.tracks.len(),
                        i < PATTERN_SLOTS,
                        s.patterns@.len() == PATTERN_SLOTS,
                        s.patterns@[i as int] == Some(*p),
                        forall|k: int| 0 <= k < i ==> (#[trigger] s.patterns@[k] matches Some(q) ==> pattern_valid(q)),
                        forall|m: int| 0 <= m < j ==> 1 <= (#[trigger] p.tracks@[m]).length <= STEP_COUNT,
                    decreases p.tracks.len() - j,
                {
                    let len = p.tracks[j].length;
                    if len < 1 || len > STEP_COUNT {
                        assert(p.tracks@[j as int].length == len);
                        assert(!pattern_valid(*p));
                        return false;
                    }
                    j = j + 1;
                }
            },
            None => {},
        }
        i = i + 1;
    }
    true
}

/// The byte strings `Hash` for the tuple (tempo bits, active index, swing
/// bits) writes into a hasher, in order.
pub uninterp spec fn play_tuple_writes(bpm: u64, active: usize, swing: u32) -> Seq<Seq<u8>>;

/// The byte strings `Hash` for the tuple (track index, tempo bits) writes into
/// a hasher, in order.
pub uninterp spec fn track_tuple_writes(track_idx: usize, bpm: u64) -> Seq<Seq<u8>>;

/// `<(u64, usize, u32) as Hash>::hash` into a `DefaultHasher`: the tuple's
/// fields are written in order. The contract names the written bytes; what
/// they are (the fields' native-endian encodings, as the tuple and integer
/// `Hash` impls feed them) is left unsaid.
#[verifier::external_body]
fn hash_play_tuple(h: &mut DefaultHasher, bpm: u64, active: usize, swing: u32)
    ensures
        final(h)@ == old(h)@ + play_tuple_writes(bpm, active, swing),
{
    (bpm, active, swing).hash(h);
}

/// `<(usize, u64) as Hash>::hash` into a `DefaultHasher`; as for
/// [`hash_play_tuple`], the written bytes are only named.
#[verifier::external_body]
fn hash_track_tuple(h: &mut DefaultHasher, track_idx: usize, bpm: u64)
    ensures
        final(h)@ == old(h)@ + track_tuple_writes(track_idx, bpm),
{
    (track_idx, bpm).hash(h);
}

/// The seed of playback: `DefaultHasher` (fixed keys) over (tempo bits,
/// active index, swing bits).
pub open spec fn play_seed(bpm: u64, active: usize, swing: u32) -> u64 {
    DefaultHasher::spec_finish(play_tuple_writes(bpm, active, swing))
}

/// The seed of Roll and Vary on a track: `DefaultHasher` over (track index,
/// tempo bits).
pub open spec fn track_seed(track_idx: usize, bpm: u64) -> u64 {
    DefaultHasher::spec_finish(track_tuple_writes(track_idx, bpm))
}

fn hash_play_seed(bpm: u64, active: usize, swing: u32) -> (h: u64)
    ensures
        h == play_seed(bpm, active, swing),
{
    let mut hasher = DefaultHasher::new();
    hash_play_tuple(&mut hasher, bpm, active, swing);
    assert(hasher@ =~= play_tuple_writes(bpm, active, swing));
    hasher.finish()
}

fn hash_track_seed(track_idx: usize, bpm: u64) -> (h: u64)
    ensures
        h == track_seed(track_idx, bpm),
{
    let mut hasher = DefaultHasher::new();
    hash_track_tuple(&mut hasher, track_idx, bpm);
    assert(hasher@ =~= track_tuple_writes(track_idx, bpm));
    hasher.finish()
}

/// Bit pattern of the `f64` 20.0, the lowest tempo.
pub const MIN_BPM_BITS: u64 = 0x4034_0000_0000_0000;
/// Bit pattern of the `f64` 400.0, the highest tempo.
pub const MAX_BPM_BITS: u64 = 0x4079_0000_0000_0000;

/// `b` is the bit pattern of a NaN.
pub open spec fn is_nan_bits(b: u64) -> bool {
    (b >> 52u64) & 0x7FF == 0x7FF && b & 0xF_FFFF_FFFF_FFFF != 0
}

/// The tempo `f64::clamp(20.0, 400.0)` gives, on bit patterns. Away from NaN,
/// every value with the sign bit set (negative numbers and -0.0) is below the
/// range, and the bit patterns of the other values are ordered as the values
/// are; a NaN stays as it is.
pub open spec fn bpm_clamped(b: u64) -> u64 {
    if is_nan_bits(b) {
        b
    } else if b >= 0x8000_0000_0000_0000 || b < MIN_BPM_BITS {
        MIN_BPM_BITS
    } else if b > MAX_BPM_BITS {
        MAX_BPM_BITS
    } else {
        b
    }
}

/// Keep a tempo (as `f64` bits) within 20..=400 BPM, as `f64::clamp` does.
pub fn clamp_bpm_bits(b: u64) -> (r: u64)
    ensures
        r == bpm_clamped(b),
{
    if (b >> 52) & 0x7FF == 0x7FF && b & 0xF_FFFF_FFFF_FFFF != 0 {
        b
    } else if b >= 0x8000_0000_0000_0000 || b < MIN_BPM_BITS {
        MIN_BPM_BITS
    } else if b > MAX_BPM_BITS {
        MAX_BPM_BITS
    } else {
        b
    }
}

/// The RNG state `Rng::new(seed)` starts from.
pub open spec fn rng_start(seed: u64) -> u64 {
    if seed == 0 {
        RNG_ZERO_SEED
    } else {
        seed
    }
}

/// Transport state: playing or not, and a counter bumped on every stop.
pub struct Transport {
    pub is_playing: bool,
    /// Bumped on every stop so the MIDI worker can drop pending sends.
    pub stop_generation: u32,
}

/// External-clock counters: raw 24-PPQN MIDI clock ticks, the 16th-step
/// pulses derived from them (one per six ticks), the Link position in
/// micro-beats, and whether the Link session is on.
pub struct ExternalClock {
    pub midi_ticks: u32,
    pub midi_step_pulses: u32,
    pub link_beats_micros: u64,
    pub link_enabled: bool,
}

#[derive(Clone, Copy, Debug, PartialEq, Eq, Structural)]
pub struct TrackRtState {
    pub step_idx: usize,
    pub speed_acc: u32,
}

/// Per-tick playback state owned by the tick loop.
pub struct RtState {
    pub per_track: [TrackRtState; 8],
    pub rng: Rng,
    /// 16th-step position consumed under Link sync.
    pub link_step_count: u64,
    /// Global 16th within the 16-step bar.
    pub global_step: u32,
    pub track_count: usize,
    pub loop_count: u32,
}

impl RtState {
    pub fn new(seed: u64) -> (r: Self)
        ensures
            forall|i: int| 0 <= i < MAX_TRACKS ==> #[trigger] r.per_track@[i] == (TrackRtState { step_idx: 0, speed_acc: 0 }),
            r.rng.0 == rng_start(seed),
            r.link_step_count == 0,
            r.global_step == 0,
            r.track_count == 0,
            r.loop_count == 0,
    {
        RtState {
            per_track: [TrackRtState { step_idx: 0, speed_acc: 0 }; 8],
            rng: Rng::new(seed),
            link_step_count: 0,
            global_step: 0,
            track_count: 0,
            loop_count: 0,
        }
    }
}

/// Something the engine hands to its surroundings: an event for the small
/// (encoded, fixed-slot) channel, an event for the large-payload channel, a
/// session envelope to encode and deliver as `Serialized`, or a request to
/// switch the Link session on or off.
pub enum Effect {
    Hot(EngineEvent),
    Large(EngineEvent),
    SerializeSession(SessionEnvelope),
    SetLinkSession(bool),
}

/// `e` delivers a full snapshot of a session whose value is `s`.
pub open spec fn is_full_snapshot(e: Effect, s: SessionView) -> bool {
    e matches Effect::Large(EngineEvent::FullSnapshot { session }) && session@ == s
}

/// The engine: the published session and everything commands and ticks act on.
pub struct Engine {
    /// The published session.
    pub snapshot: Session,
    pub midi: MidiOutRing,
    pub transport: Transport,
    pub undo: Undo,
    pub clipboard: Clipboard,
    pub external_clock: ExternalClock,
    pub scheduler: Scheduler,
    /// Bumped on every successful session load.
    pub reload_generation: u32,
    /// The host drives rendering (no self-scheduled tick loop).
    pub host_driven: bool,
}

impl Engine {
    /// What the tick and the command interpreter rely on: the active index
    /// names a slot, and the MIDI ring holds at most its capacity.
    pub open spec fn wf(&self) -> bool {
        &&& self.snapshot.active_pattern_index < PATTERN_SLOTS
        &&& midi_ring_contents(self.midi).len() <= MIDI_RING_DEPTH
    }

    pub fn new() -> (e: Self)
        ensures
            e.wf(),
            crate::models::is_default_session(e.snapshot),
            midi_ring_contents(e.midi).len() == 0,
            !e.transport.is_playing,
            e.transport.stop_generation == 0,
            e.external_clock.midi_ticks == 0,
            e.external_clock.midi_step_pulses == 0,
            e.external_clock.link_beats_micros == 0,
            !e.external_clock.link_enabled,
            e.scheduler.queued is None,
            !e.scheduler.retrigger,
            e.scheduler.switch_request is None,
            e.reload_generation == 0,
            !e.host_driven,
            forall|i: int| 0 <= i < MAX_TRACKS ==> #[trigger] e.undo.track_slots()[i] is None,
            forall|i: int| 0 <= i < PATTERN_SLOTS ==> #[trigger] e.undo.pattern_slots()[i] is None,
            e.clipboard.track_clip() is None,
            e.clipboard.pattern_clip() is None,
    {
        Engine {
            snapshot: Session::default(),
            midi: midi_out_ring(),
            transport: Transport { is_playing: false, stop_generation: 0 },
            undo: Undo::default(),
            clipboard: Clipboard::default(),
            external_clock: ExternalClock {
                midi_ticks: 0,
                midi_step_pulses: 0,
                link_beats_micros: 0,
                link_enabled: false,
            },
            scheduler: Scheduler::default(),
            reload_generation: 0,
            host_driven: false,
        }
    }

    /// `Engine::new` with host-driven rendering.
    pub fn new_host_driven() -> (e: Self)
        ensures
            e.wf(),
            crate::models::is_default_session(e.snapshot),
            e.host_driven,
            !e.transport.is_playing,
    {
        let mut e = Engine::new();
        e.host_driven = true;
        e
    }

    /// Publish a new session.
    pub fn publish(&mut self, session: Session)
        ensures
            *final(self) == (Engine { snapshot: session, ..*old(self) }),
    {
        self.snapshot = session;
    }

    /// The published session.
    pub fn snapshot_arc(&self) -> (s: &Session)
        ensures
            *s == self.snapshot,
    {
        &self.snapshot
    }

    /// Play start: fresh tick state seeded from a hash of the tempo, the
    /// active index and the global swing.
    pub fn begin_play(&self, rt: &mut RtState)
        ensures
            forall|i: int| 0 <= i < MAX_TRACKS ==> #[trigger] final(rt).per_track@[i] == (TrackRtState { step_idx: 0, speed_acc: 0 }),
            final(rt).rng.0 == rng_start(play_seed(self.snapshot.bpm, self.snapshot.active_pattern_index, self.snapshot.global_swing_pct)),
            final(rt).link_step_count == 0,
            final(rt).global_step == 0,
            final(rt).track_count == 0,
            final(rt).loop_count == 0,
    {
        let seed = hash_play_seed(self.snapshot.bpm, self.snapshot.active_pattern_index, self.snapshot.global_swing_pct);
        *rt = RtState::new(seed);
    }

    /// Fresh tick state (reseeded by `begin_play` on the play transition).
    pub fn new_rt_state(&self) -> (r: RtState)
        ensures
            forall|i: int| 0 <= i < MAX_TRACKS ==> #[trigger] r.per_track@[i] == (TrackRtState { step_idx: 0, speed_acc: 0 }),
            r.rng.0 == 1,
            r.global_step == 0,
            r.loop_count == 0,
    {
        RtState::new(1)
    }

    /// Publish a pattern switch fired by the tick (out-of-range indices are
    /// ignored).
    pub fn apply_pattern_switch(&mut self, idx: usize) -> (fx: Vec<Effect>)
        ensures
            idx < PATTERN_SLOTS ==> final(self).snapshot == (Session { active_pattern_index: idx, ..old(self).snapshot })
                && fx@ == seq![Effect::Hot(EngineEvent::PatternSwitched { index: idx })],
            idx >= PATTERN_SLOTS ==> final(self).snapshot == old(self).snapshot && fx@.len() == 0,
            final(self).midi == old(self).midi,
            final(self).transport == old(self).transport,
            final(self).scheduler == old(self).scheduler,
    {
        let mut fx: Vec<Effect> = Vec::new();
        if idx >= PATTERN_SLOTS {
            return fx;
        }
        self.snapshot.active_pattern_index = idx;
        fx.push(Effect::Hot(EngineEvent::PatternSwitched { index: idx }));
        fx
    }
}

/// `b` is `a` with nothing but the published session changed.
pub open spec fn only_snapshot_changed(a: Engine, b: Engine) -> bool {
    b == Engine { snapshot: b.snapshot, ..a }
}

/// `UndoAvailable { i, false }` for each occupied track slot among the first
/// `n`, in index order.
pub open spec fn stale_undo_events(slots: Seq<Option<crate::undo::TrackSnapshot>>, n: nat) -> Seq<Effect>
    decreases n,
{
    if n == 0 {
        Seq::empty()
    } else {
        let prev = stale_undo_events(slots, (n - 1) as nat);
        if slots[n - 1] is Some {
            prev.push(Effect::Hot(EngineEvent::UndoAvailable { track_idx: (n - 1) as usize, available: false }))
        } else {
            prev
        }
    }
}

/// Emit `UndoAvailable { i, false }` for each flagged index.
fn push_stale_undo_events(fx: &mut Vec<Effect>, occupied: &[bool; 8], Ghost(slots): Ghost<Seq<Option<crate::undo::TrackSnapshot>>>)
    requires
        slots.len() == MAX_TRACKS,
        forall|i: int| 0 <= i < MAX_TRACKS ==> #[trigger] occupied@[i] == slots[i] is Some,
    ensures
        final(fx)@ == old(fx)@ + stale_undo_events(slots, MAX_TRACKS as nat),
{
    let mut i: usize = 0;
    while i < MAX_TRACKS
        invariant
            i <= MAX_TRACKS,
            slots.len() == MAX_TRACKS,
            forall|k: int| 0 <= k < MAX_TRACKS ==> #[trigger] occupied@[k] == slots[k] is Some,
            fx@ == old(fx)@ + stale_undo_events(slots, i as nat),
        decreases MAX_TRACKS - i,
    {
        if occupied[i] {
            fx.push(Effect::Hot(EngineEvent::UndoAvailable { track_idx: i, available: false }));
        }
        i = i + 1;
        assert(fx@ =~= old(fx)@ + stale_undo_events(slots, i as nat));
    }
}

/// `Play`: the transport runs; `PlayStateChanged(true)` is emitted.
pub open spec fn play_post(a: Engine, b: Engine, fx: Seq<Effect>) -> bool {
    &&& b == (Engine { transport: Transport { is_playing: true, ..a.transport }, ..a })
    &&& fx == seq![Effect::Hot(EngineEvent::PlayStateChanged { playing: true })]
}

/// `Stop`: the transport stops and its stop counter moves on; `PlayStateChanged(false)` is emitted.
pub open spec fn stop_post(a: Engine, b: Engine, fx: Seq<Effect>) -> bool {
    &&& b == (Engine {
        transport: Transport {
            is_playing: false,
            stop_generation: ((a.transport.stop_generation + 1) % 0x1_0000_0000) as u32,
        },
        ..a
    })
    &&& fx == seq![Effect::Hot(EngineEvent::PlayStateChanged { playing: false })]
}

/// `MidiClockTick`: one more clock tick; every sixth tick is a 16th step pulse.
pub open spec fn midi_clock_tick_post(a: Engine, b: Engine, fx: Seq<Effect>) -> bool {
    let t = ((a.external_clock.midi_ticks + 1) % 0x1_0000_0000) as u32;
    let p = a.external_clock.midi_step_pulses;
    b == (Engine {
        external_clock: ExternalClock {
            midi_ticks: t,
            midi_step_pulses: if t % 6 == 0 { ((p + 1) % 0x1_0000_0000) as u32 } else { p },
            ..a.external_clock
        },
        ..a
    })
}

/// `LoadSession`: a decoded envelope of the current version holding a valid
/// session replaces the session (undo dropped, reload counter bumped, a full
/// snapshot and the stale undo flags emitted); anything else is ignored.
pub open spec fn load_session_post(a: Engine, b: Engine, envelope: Option<SessionEnvelope>, fx: Seq<Effect>) -> bool {
    let ok = envelope matches Some(env) && env.version == SESSION_FORMAT_VERSION && session_valid(env.session);
    &&& ok ==> {
        &&& b.snapshot == envelope->Some_0.session
        &&& b.reload_generation == ((a.reload_generation + 1) % 0x1_0000_0000) as u32
        &&& forall|i: int| 0 <= i < MAX_TRACKS ==> #[trigger] b.undo.track_slots()[i] is None
        &&& forall|i: int| 0 <= i < PATTERN_SLOTS ==> #[trigger] b.undo.pattern_slots()[i] is None
        &&& b.midi == a.midi
        &&& b.transport == a.transport
        &&& b.clipboard == a.clipboard
        &&& b.external_clock == a.external_clock
        &&& b.scheduler == a.scheduler
        &&& b.host_driven == a.host_driven
        &&& fx.len() >= 1
        &&& is_full_snapshot(fx[0], envelope->Some_0.session@)
        &&& fx.drop_first() == stale_undo_events(a.undo.track_slots(), MAX_TRACKS as nat)
    }
    &&& !ok ==> b == a && fx.len() == 0
}

/// `Roll` on track `idx`: undo snapshot, then the rolled steps.
pub open spec fn roll_post(a: Engine, b: Engine, idx: usize, st: Strength, fx: Seq<Effect>) -> bool {
    &&& tool_frame(a, b)
    &&& b.clipboard == a.clipboard
    &&& mutated_track(a, b, idx, |t0: Track, t1: Track|
        t1 == (Track { steps: t1.steps, ..t0 }) && t1.steps@ == rolled_steps(t0, idx, a.snapshot.bpm, st))
    &&& tool_effects(b, idx, fx)
}

/// `Vary` on track `idx`: undo snapshot, then the varied steps.
pub open spec fn vary_post(a: Engine, b: Engine, idx: usize, st: Strength, fx: Seq<Effect>) -> bool {
    &&& tool_frame(a, b)
    &&& b.clipboard == a.clipboard
    &&& mutated_track(a, b, idx, |t0: Track, t1: Track|
        t1 == (Track { steps: t1.steps, ..t0 }) && t1.steps@ == varied_steps(t0, idx, a.snapshot.bpm, st))
    &&& tool_effects(b, idx, fx)
}

/// `Trash` on track `idx`: undo snapshot, then the steps emptied.
pub open spec fn trash_post(a: Engine, b: Engine, idx: usize, fx: Seq<Effect>) -> bool {
    &&& tool_frame(a, b)
    &&& b.clipboard == a.clipboard
    &&& mutated_track(a, b, idx, |t0: Track, t1: Track| crate::clipboard::steps_cleared(t0, t1))
    &&& tool_effects(b, idx, fx)
}

/// `Cut` on track `idx`: undo snapshot, the track's clip copied, its steps emptied.
pub open spec fn cut_post(a: Engine, b: Engine, idx: usize, fx: Seq<Effect>) -> bool {
    &&& tool_frame(a, b)
    &&& mutated_track(a, b, idx, |t0: Track, t1: Track| crate::clipboard::steps_cleared(t0, t1))
    &&& b.clipboard.pattern_clip() == a.clipboard.pattern_clip()
    &&& match track_at(a.snapshot, a.snapshot.active_pattern_index as int, idx as int) {
        Some(t0) => b.clipboard.track_clip() == Some(crate::clipboard::clip_of(t0)),
        None => b.clipboard.track_clip() == a.clipboard.track_clip(),
    }
    &&& tool_effects(b, idx, fx)
}

/// `Copy` of track `idx`: only the clipboard changes.
pub open spec fn copy_post(a: Engine, b: Engine, idx: usize, fx: Seq<Effect>) -> bool {
    &&& b == (Engine { clipboard: b.clipboard, ..a })
    &&& b.clipboard.pattern_clip() == a.clipboard.pattern_clip()
    &&& match track_at(a.snapshot, a.snapshot.active_pattern_index as int, idx as int) {
        Some(t0) => b.clipboard.track_clip() == Some(crate::clipboard::clip_of(t0)),
        None => b.clipboard.track_clip() == a.clipboard.track_clip(),
    }
    &&& tool_effects(b, idx, fx)
}

/// `Paste` onto track `idx`: undo snapshot, then the clip pasted (when there is one).
pub open spec fn paste_post(a: Engine, b: Engine, idx: usize, fx: Seq<Effect>) -> bool {
    &&& tool_frame(a, b)
    &&& b.clipboard == a.clipboard
    &&& mutated_track(a, b, idx, |t0: Track, t1: Track|
        t1 == match a.clipboard.track_clip() {
            Some(c) => crate::clipboard::pasted(t0, c),
            None => t0,
        })
    &&& tool_effects(b, idx, fx)
}

/// `Undo` of track `idx`: its snapshot, if any, restored and consumed.
pub open spec fn undo_post(a: Engine, b: Engine, idx: usize, fx: Seq<Effect>) -> bool {
    &&& tool_frame(a, b)
    &&& b.clipboard == a.clipboard
    &&& ({
        let ai = a.snapshot.active_pattern_index as int;
        let ok = idx < MAX_TRACKS && a.undo.track_slots()[idx as int] is Some
            && track_at(a.snapshot, ai, idx as int) is Some;
        &&& ok ==> track_replaced(a.snapshot, b.snapshot, ai, idx as int,
            crate::undo::restored(track_at(a.snapshot, ai, idx as int)->Some_0,
                a.undo.track_slots()[idx as int]->Some_0))
        &&& !ok ==> b.snapshot == a.snapshot
    })
    &&& idx < MAX_TRACKS ==> b.undo.track_slots() == a.undo.track_slots().update(idx as int, None)
    &&& idx >= MAX_TRACKS ==> b.undo.track_slots() == a.undo.track_slots()
    &&& b.undo.pattern_slots() == a.undo.pattern_slots()
    &&& tool_effects(b, idx, fx)
}

/// `CopyPattern`: only the pattern clipboard changes; nothing is emitted.
pub open spec fn copy_pattern_post(a: Engine, b: Engine, index: usize, fx: Seq<Effect>) -> bool {
    &&& b == (Engine { clipboard: b.clipboard, ..a })
    &&& b.clipboard.track_clip() == a.clipboard.track_clip()
    &&& (index < PATTERN_SLOTS && a.snapshot.patterns@[index as int] is Some) ==> (b.clipboard.pattern_clip() matches Some(c)
        && c.tracks@ == a.snapshot.patterns@[index as int]->Some_0.tracks@
        && c.follow_action == a.snapshot.patterns@[index as int]->Some_0.follow_action)
    &&& !(index < PATTERN_SLOTS && a.snapshot.patterns@[index as int] is Some)
        ==> b.clipboard.pattern_clip() == a.clipboard.pattern_clip()
    &&& fx.len() == 0
}

/// `ClearPattern` (and, with `cut`, `CutPattern`): pattern undo snapshot, every
/// step of the slot emptied; a cut copies the slot first.
pub open spec fn clear_pattern_post(a: Engine, b: Engine, index: usize, cut: bool, fx: Seq<Effect>) -> bool {
    let present = index < PATTERN_SLOTS && a.snapshot.patterns@[index as int] is Some;
    let p0 = a.snapshot.patterns@[index as int]->Some_0;
    &&& present ==> {
        &&& b == (Engine { snapshot: b.snapshot, undo: b.undo, clipboard: b.clipboard, ..a })
        &&& b.snapshot.patterns@[index as int] matches Some(p1)
        &&& crate::clipboard::all_steps_cleared(p0.tracks@, p1.tracks@)
        &&& crate::models::pattern_content_replaced(a.snapshot, b.snapshot, index as int, p1.tracks@, p0.follow_action)
        &&& pattern_undo_pushed(a.undo, b.undo, index, p0)
        &&& pattern_change_effects(a.undo.track_slots(), b, index, fx)
        &&& b.clipboard.track_clip() == a.clipboard.track_clip()
        &&& cut ==> (b.clipboard.pattern_clip() matches Some(c) && c.tracks@ == p0.tracks@ && c.follow_action == p0.follow_action)
        &&& !cut ==> b.clipboard == a.clipboard
    }
    &&& !present ==> b == a && fx.len() == 0
}

/// `PastePattern`: with a clip and a filled slot, pattern undo snapshot and the
/// clip's tracks and follow action written into the slot (its id kept).
pub open spec fn paste_pattern_post(a: Engine, b: Engine, index: usize, fx: Seq<Effect>) -> bool {
    let ok = a.clipboard.pattern_clip() is Some && index < PATTERN_SLOTS
        && a.snapshot.patterns@[index as int] is Some;
    let c = a.clipboard.pattern_clip()->Some_0;
    &&& ok ==> {
        &&& b == (Engine { snapshot: b.snapshot, undo: b.undo, ..a })
        &&& crate::models::pattern_content_replaced(a.snapshot, b.snapshot, index as int, c.tracks@, c.follow_action)
        &&& pattern_undo_pushed(a.undo, b.undo, index, a.snapshot.patterns@[index as int]->Some_0)
        &&& pattern_change_effects(a.undo.track_slots(), b, index, fx)
    }
    &&& !ok ==> b == a && fx.len() == 0
}

/// `UndoPattern`: the slot's pattern snapshot, if any, restored and consumed.
pub open spec fn undo_pattern_post(a: Engine, b: Engine, index: usize, fx: Seq<Effect>) -> bool {
    let present = index < PATTERN_SLOTS && a.snapshot.patterns@[index as int] is Some;
    let ok = present && a.undo.pattern_slots()[index as int] is Some;
    let snap = a.undo.pattern_slots()[index as int]->Some_0;
    &&& ok ==> {
        &&& b == (Engine { snapshot: b.snapshot, undo: b.undo, ..a })
        &&& crate::models::pattern_content_replaced(a.snapshot, b.snapshot, index as int, snap.tracks@, snap.follow_action)
        &&& b.undo.pattern_slots() == a.undo.pattern_slots().update(index as int, None)
        &&& pattern_change_effects(a.undo.track_slots(), b, index, fx)
    }
    &&& !ok ==> b == a && fx.len() == 0
}

/// `SetTrackLength`: the length, clamped to 1..=16, set and echoed.
pub open spec fn track_length_post(a: Engine, b: Engine, idx: usize, length: usize, fx: Seq<Effect>) -> bool {
    &&& only_snapshot_changed(a, b)
    &&& track_edited(a.snapshot, b.snapshot, idx, |t: Track| Track { length: clamp_length(length), ..t })
    &&& track_at(a.snapshot, a.snapshot.active_pattern_index as int, idx as int) is Some
        ==> fx == seq![Effect::Hot(EngineEvent::TrackLengthChanged { track_idx: idx, length: clamp_length(length) })]
    &&& track_at(a.snapshot, a.snapshot.active_pattern_index as int, idx as int) is None ==> fx.len() == 0
}

/// `SetTrackMuted`: the mute flag set and echoed.
pub open spec fn track_muted_post(a: Engine, b: Engine, idx: usize, muted: bool, fx: Seq<Effect>) -> bool {
    &&& only_snapshot_changed(a, b)
    &&& track_edited(a.snapshot, b.snapshot, idx, |t: Track| Track { muted: muted, ..t })
    &&& track_at(a.snapshot, a.snapshot.active_pattern_index as int, idx as int) is Some
        ==> fx == seq![Effect::Hot(EngineEvent::TrackMutedChanged { track_idx: idx, muted })]
    &&& track_at(a.snapshot, a.snapshot.active_pattern_index as int, idx as int) is None ==> fx.len() == 0
}

/// `SetTrackNote`, `SetTrackSpeedRatio`, `SetTrackSwing`: the field set and a
/// full snapshot emitted.
pub open spec fn track_field_post(a: Engine, b: Engine, idx: usize, note: Option<u8>, ratio: Option<u32>, swing: Option<u32>, fx: Seq<Effect>) -> bool {
    &&& only_snapshot_changed(a, b)
    &&& track_edited(a.snapshot, b.snapshot, idx, |t: Track| Track {
        midi_note: match note { Some(n) => n, None => t.midi_note },
        speed_ratio: match ratio { Some(r) => r, None => t.speed_ratio },
        swing_pct: match swing { Some(w) => w, None => t.swing_pct },
        ..t
    })
    &&& fx.len() == 1
    &&& is_full_snapshot(fx[0], b.snapshot@)
}

/// `SetStep`, `DeleteStep`, `SetRatchet`: the step edited and echoed.
pub open spec fn edit_step_post(a: Engine, b: Engine, idx: usize, step_idx: usize, e: StepEdit, fx: Seq<Effect>) -> bool {
    &&& only_snapshot_changed(a, b)
    &&& ({
        let ai = a.snapshot.active_pattern_index as int;
        match track_at(a.snapshot, ai, idx as int) {
            Some(t0) => if step_idx < STEP_COUNT {
                let s1 = edited_step(t0.steps@[step_idx as int], e);
                &&& track_at(b.snapshot, ai, idx as int) matches Some(t1)
                &&& t1 == (Track { steps: t1.steps, ..t0 })
                &&& t1.steps@ == t0.steps@.update(step_idx as int, s1)
                &&& track_replaced(a.snapshot, b.snapshot, ai, idx as int, t1)
                &&& fx == seq![Effect::Hot(EngineEvent::StepChanged { track_idx: idx, step_idx, step: s1 })]
            } else {
                b.snapshot == a.snapshot && fx.len() == 0
            },
            None => b.snapshot == a.snapshot && fx.len() == 0,
        }
    })
}

/// `AddTrack`: below eight tracks, a fresh kick track appended and announced.
pub open spec fn add_track_post(a: Engine, b: Engine, fx: Seq<Effect>) -> bool {
    &&& only_snapshot_changed(a, b)
    &&& ({
        let ai = a.snapshot.active_pattern_index as int;
        match a.snapshot.patterns@[ai] {
            Some(p0) => if p0.tracks@.len() < MAX_TRACKS {
                &&& fx.len() == 1
                &&& fx[0] matches Effect::Large(EngineEvent::TrackAdded { track_idx, track })
                &&& track_idx == p0.tracks@.len()
                &&& crate::models::is_fresh_track(track, 36)
                &&& crate::models::pattern_content_replaced(a.snapshot, b.snapshot, ai,
                    p0.tracks@.push(track), p0.follow_action)
            } else {
                b.snapshot == a.snapshot && fx.len() == 0
            },
            None => b.snapshot == a.snapshot && fx.len() == 0,
        }
    })
}

/// `RemoveTrack`: above four tracks, the last track removed and announced.
pub open spec fn remove_track_post(a: Engine, b: Engine, fx: Seq<Effect>) -> bool {
    &&& only_snapshot_changed(a, b)
    &&& ({
        let ai = a.snapshot.active_pattern_index as int;
        match a.snapshot.patterns@[ai] {
            Some(p0) => if p0.tracks@.len() > MIN_TRACKS {
                &&& fx == seq![Effect::Hot(EngineEvent::TrackRemoved { track_idx: (p0.tracks@.len() - 1) as usize })]
                &&& crate::models::pattern_content_replaced(a.snapshot, b.snapshot, ai,
                    p0.tracks@.drop_last(), p0.follow_action)
            } else {
                b.snapshot == a.snapshot && fx.len() == 0
            },
            None => b.snapshot == a.snapshot && fx.len() == 0,
        }
    })
}

/// `SetFollowAction`: the slot's follow action set (when filled) and echoed.
pub open spec fn follow_action_post(a: Engine, b: Engine, pattern_idx: usize, action: crate::models::FollowAction, fx: Seq<Effect>) -> bool {
    &&& only_snapshot_changed(a, b)
    &&& pattern_idx < PATTERN_SLOTS ==> fx == seq![Effect::Hot(EngineEvent::FollowActionChanged { pattern_idx, action })]
        && match a.snapshot.patterns@[pattern_idx as int] {
            Some(p0) => crate::models::pattern_content_replaced(a.snapshot, b.snapshot,
                pattern_idx as int, p0.tracks@, action),
            None => b.snapshot == a.snapshot,
        }
    &&& pattern_idx >= PATTERN_SLOTS ==> b.snapshot == a.snapshot && fx.len() == 0
}

impl Engine {
    fn play(&mut self) -> (fx: Vec<Effect>)
        ensures
            play_post(*old(self), *final(self), fx@),
    {
        self.transport.is_playing = true;
        let mut fx: Vec<Effect> = Vec::new();
        fx.push(Effect::Hot(EngineEvent::PlayStateChanged { playing: true }));
        fx
    }

    fn stop(&mut self) -> (fx: Vec<Effect>)
        ensures
            stop_post(*old(self), *final(self), fx@),
    {
        self.transport.is_playing = false;
        self.transport.stop_generation = self.transport.stop_generation.wrapping_add(1);
        let mut fx: Vec<Effect> = Vec::new();
        fx.push(Effect::Hot(EngineEvent::PlayStateChanged { playing: false }));
        fx
    }

    /// Switch the Link session: request it, record the flag, echo it.
    fn set_link_session(&mut self, enabled: bool, fx: &mut Vec<Effect>)
        ensures
            *final(self) == (Engine { external_clock: ExternalClock { link_enabled: enabled, ..old(self).external_clock }, ..*old(self) }),
            final(fx)@ == old(fx)@ + seq![
                Effect::SetLinkSession(enabled),
                Effect::Hot(EngineEvent::LinkEnabledChanged { enabled }),
            ],
    {
        fx.push(Effect::SetLinkSession(enabled));
        self.external_clock.link_enabled = enabled;
        fx.push(Effect::Hot(EngineEvent::LinkEnabledChanged { enabled }));
        assert(fx@ =~= old(fx)@ + seq![
            Effect::SetLinkSession(enabled),
            Effect::Hot(EngineEvent::LinkEnabledChanged { enabled }),
        ]);
    }

    fn midi_clock_tick(&mut self)
        ensures
            midi_clock_tick_post(*old(self), *final(self), Seq::empty()),
    {
        let t = self.external_clock.midi_ticks.wrapping_add(1);
        self.external_clock.midi_ticks = t;
        if t % 6 == 0 {
            self.external_clock.midi_step_pulses = self.external_clock.midi_step_pulses.wrapping_add(1);
        }
    }

    fn load_session(&mut self, envelope: Option<SessionEnvelope>) -> (fx: Vec<Effect>)
        requires
            old(self).wf(),
        ensures
            final(self).wf(),
            load_session_post(*old(self), *final(self), envelope, fx@),
    {
        let mut fx: Vec<Effect> = Vec::new();
        match envelope {
            Some(env) => {
                if env.version == SESSION_FORMAT_VERSION && validate_session(&env.session) {
                    let ghost slots = self.undo.track_slots();
                    proof {
                        self.undo.lemma_slot_counts();
                    }
                    self.snapshot = env.session;
                    self.reload_generation = self.reload_generation.wrapping_add(1);
                    fx.push(Effect::Large(EngineEvent::FullSnapshot { session: copy_session(&self.snapshot) }));
                    let occupied = self.undo.take_occupied();
                    let _ = self.undo.take_occupied_patterns();
                    push_stale_undo_events(&mut fx, &occupied, Ghost(slots));
                    assert(fx@.drop_first() =~= stale_undo_events(slots, MAX_TRACKS as nat));
                }
            },
            None => {},
        }
        fx
    }
}

/// `b` is the undo store `a` after a snapshot of `t` was pushed for `idx`.
pub open spec fn undo_pushed(a: Undo, b: Undo, idx: usize, t: Track) -> bool {
    &&& idx < MAX_TRACKS ==> b.track_slots() == a.track_slots().update(
        idx as int,
        Some(crate::undo::TrackSnapshot { steps: t.steps, length: t.length, speed_ratio: t.speed_ratio }),
    )
    &&& idx >= MAX_TRACKS ==> b.track_slots() == a.track_slots()
    &&& b.pattern_slots() == a.pattern_slots()
}

/// The effects every track tool ends with: a full snapshot of the new session
/// and the undo availability of the track.
pub open spec fn tool_effects(b: Engine, idx: usize, fx: Seq<Effect>) -> bool {
    &&& fx.len() == 2
    &&& is_full_snapshot(fx[0], b.snapshot@)
    &&& fx[1] == Effect::Hot(EngineEvent::UndoAvailable {
        track_idx: idx,
        available: idx < MAX_TRACKS && b.undo.track_slots()[idx as int] is Some,
    })
}

/// Only the session, the undo store and the clipboard may differ.
pub open spec fn tool_frame(a: Engine, b: Engine) -> bool {
    b == Engine { snapshot: b.snapshot, undo: b.undo, clipboard: b.clipboard, ..a }
}

/// The effect of a mutating track tool whose track-level result is described
/// by `done(t0, t1)`: with a track `idx` present, its snapshot is pushed for
/// undo and it becomes some `t1` with `done(t0, t1)`; without it, nothing but
/// the effects happens.
pub open spec fn mutated_track(a: Engine, b: Engine, idx: usize, done: spec_fn(Track, Track) -> bool) -> bool {
    let ai = a.snapshot.active_pattern_index as int;
    match track_at(a.snapshot, ai, idx as int) {
        Some(t0) => {
            &&& undo_pushed(a.undo, b.undo, idx, t0)
            &&& track_at(b.snapshot, ai, idx as int) matches Some(t1)
            &&& track_replaced(a.snapshot, b.snapshot, ai, idx as int, t1)
            &&& done(t0, t1)
        },
        None => b.snapshot == a.snapshot && b.undo == a.undo,
    }
}

/// The steps Roll gives a track at index `idx` of a session with tempo bits `bpm`.
pub open spec fn rolled_steps(t0: Track, idx: usize, bpm: u64, st: Strength) -> Seq<crate::models::Step> {
    roll_from(t0.steps@, 0, rng_start(track_seed(idx, bpm)), st).0
}

/// The steps Vary gives a track at index `idx` of a session with tempo bits `bpm`.
pub open spec fn varied_steps(t0: Track, idx: usize, bpm: u64, st: Strength) -> Seq<crate::models::Step> {
    if has_accent(t0.steps@) {
        vary_from(t0.steps@, 0, rng_start(track_seed(idx, bpm)), st).0
    } else {
        roll_from(t0.steps@, 0, rng_start(track_seed(idx, bpm)), st).0
    }
}

impl Engine {
    fn tool_effects_of(&self, idx: usize) -> (fx: Vec<Effect>)
        ensures
            tool_effects(*self, idx, fx@),
    {
        let avail = self.undo.available(idx);
        let mut fx: Vec<Effect> = Vec::new();
        fx.push(Effect::Large(EngineEvent::FullSnapshot { session: copy_session(&self.snapshot) }));
        fx.push(Effect::Hot(EngineEvent::UndoAvailable { track_idx: idx, available: avail }));
        fx
    }

    /// Push the undo snapshot of track `idx` of the active pattern, if any.
    fn push_undo_of(&mut self, idx: usize) -> (t0: Option<Track>)
        ensures
            t0 == track_at(old(self).snapshot, old(self).snapshot.active_pattern_index as int, idx as int),
            t0 matches Some(t) ==> undo_pushed(old(self).undo, final(self).undo, idx, t),
            t0 is None ==> final(self).undo == old(self).undo,
            *final(self) == (Engine { undo: final(self).undo, ..*old(self) }),
    {
        let t0 = get_track(&self.snapshot, self.snapshot.active_pattern_index, idx);
        match t0 {
            Some(t) => {
                self.undo.push(idx, &t);
            },
            None => {},
        }
        t0
    }

    fn tool_roll(&mut self, idx: usize, st: &Strength) -> (fx: Vec<Effect>)
        requires
            old(self).wf(),
            st.wf(),
        ensures
            final(self).wf(),
            roll_post(*old(self), *final(self), idx, *st, fx@),
    {
        let t0 = self.push_undo_of(idx);
        match t0 {
            Some(t) => {
                let seed = hash_track_seed(idx, self.snapshot.bpm);
                let mut rng = Rng::new(seed);
                let mut t1 = t;
                roll(&mut t1, st, &mut rng);
                let ai = self.snapshot.active_pattern_index;
                replace_track(&mut self.snapshot, ai, idx, t1);
            },
            None => {},
        }
        self.tool_effects_of(idx)
    }

    fn tool_vary(&mut self, idx: usize, st: &Strength) -> (fx: Vec<Effect>)
        requires
            old(self).wf(),
            st.wf(),
        ensures
            final(self).wf(),
            vary_post(*old(self), *final(self), idx, *st, fx@),
    {
        let t0 = self.push_undo_of(idx);
        match t0 {
            Some(t) => {
                let seed = hash_track_seed(idx, self.snapshot.bpm);
                let mut rng = Rng::new(seed);
                let mut t1 = t;
                vary(&mut t1, st, &mut rng);
                let ai = self.snapshot.active_pattern_index;
                replace_track(&mut self.snapshot, ai, idx, t1);
            },
            None => {},
        }
        self.tool_effects_of(idx)
    }

    fn tool_trash(&mut self, idx: usize) -> (fx: Vec<Effect>)
        requires
            old(self).wf(),
        ensures
            final(self).wf(),
            trash_post(*old(self), *final(self), idx, fx@),
    {
        let t0 = self.push_undo_of(idx);
        match t0 {
            Some(t) => {
                let t1 = Track { steps: crate::models::empty_steps(), ..t };
                let ai = self.snapshot.active_pattern_index;
                replace_track(&mut self.snapshot, ai, idx, t1);
            },
            None => {},
        }
        self.tool_effects_of(idx)
    }
}

impl Engine {
    fn tool_cut(&mut self, idx: usize) -> (fx: Vec<Effect>)
        requires
            old(self).wf(),
        ensures
            final(self).wf(),
            cut_post(*old(self), *final(self), idx, fx@),
    {
        let ghost ai = self.snapshot.active_pattern_index as int;
        let _ = self.push_undo_of(idx);
        self.clipboard.cut(&mut self.snapshot, idx);
        proof {
            if let Some(t0) = track_at(old(self).snapshot, ai, idx as int) {
                let t2 = choose|t2: Track| crate::clipboard::steps_cleared(t0, t2)
                    && track_replaced(old(self).snapshot, self.snapshot, ai, idx as int, t2);
                assert(track_at(self.snapshot, ai, idx as int) == Some(t2));
            }
        }
        self.tool_effects_of(idx)
    }

    fn tool_copy(&mut self, idx: usize) -> (fx: Vec<Effect>)
        requires
            old(self).wf(),
        ensures
            final(self).wf(),
            copy_post(*old(self), *final(self), idx, fx@),
    {
        self.clipboard.copy(&self.snapshot, idx);
        self.tool_effects_of(idx)
    }

    fn tool_paste(&mut self, idx: usize) -> (fx: Vec<Effect>)
        requires
            old(self).wf(),
        ensures
            final(self).wf(),
            paste_post(*old(self), *final(self), idx, fx@),
    {
        let ghost ai = self.snapshot.active_pattern_index as int;
        let _ = self.push_undo_of(idx);
        let pasted = self.clipboard.paste(&mut self.snapshot, idx);
        proof {
            if let Some(t0) = track_at(old(self).snapshot, ai, idx as int) {
                if !pasted {
                    let pa = old(self).snapshot.patterns@[ai]->Some_0;
                    assert(pa.tracks@.update(idx as int, t0) =~= pa.tracks@);
                    assert(track_replaced(old(self).snapshot, self.snapshot, ai, idx as int, t0));
                }
            }
        }
        self.tool_effects_of(idx)
    }

    fn tool_undo(&mut self, idx: usize) -> (fx: Vec<Effect>)
        requires
            old(self).wf(),
        ensures
            final(self).wf(),
            undo_post(*old(self), *final(self), idx, fx@),
    {
        let _ = self.undo.undo(&mut self.snapshot, idx);
        self.tool_effects_of(idx)
    }
}

/// After a whole-pattern change of slot `index`: a full snapshot, and when the
/// slot is the active one, the per-track undo snapshots (now stale) are dropped
/// and reported unavailable. `slots0` are the per-track snapshots before.
pub open spec fn pattern_change_effects(slots0: Seq<Option<crate::undo::TrackSnapshot>>, b: Engine, index: usize, fx: Seq<Effect>) -> bool {
    &&& fx.len() >= 1
    &&& is_full_snapshot(fx[0], b.snapshot@)
    &&& index == b.snapshot.active_pattern_index ==> {
        &&& fx.drop_first() == stale_undo_events(slots0, MAX_TRACKS as nat)
        &&& forall|i: int| 0 <= i < MAX_TRACKS ==> #[trigger] b.undo.track_slots()[i] is None
    }
    &&& index != b.snapshot.active_pattern_index ==> {
        &&& fx.len() == 1
        &&& b.undo.track_slots() == slots0
    }
}

/// `b`'s pattern snapshot for slot `index` holds the contents of `p`, and the
/// other pattern snapshots are `a`'s.
pub open spec fn pattern_undo_pushed(a: Undo, b: Undo, index: usize, p: Pattern) -> bool {
    &&& b.pattern_slots().len() == PATTERN_SLOTS
    &&& b.pattern_slots()[index as int] matches Some(snap) && snap.tracks@ == p.tracks@ && snap.follow_action == p.follow_action
    &&& forall|k: int| 0 <= k < PATTERN_SLOTS && k != index ==> #[trigger] b.pattern_slots()[k] == a.pattern_slots()[k]
}

impl Engine {
    /// The effects of a whole-pattern change of slot `index`.
    fn pattern_changed(&mut self, index: usize) -> (fx: Vec<Effect>)
        requires
            old(self).wf(),
        ensures
            final(self).wf(),
            *final(self) == (Engine { undo: final(self).undo, ..*old(self) }),
            final(self).undo.pattern_slots() == old(self).undo.pattern_slots(),
            pattern_change_effects(old(self).undo.track_slots(), *final(self), index, fx@),
    {
        let ghost slots0 = self.undo.track_slots();
        proof {
            self.undo.lemma_slot_counts();
        }
        let mut fx: Vec<Effect> = Vec::new();
        fx.push(Effect::Large(EngineEvent::FullSnapshot { session: copy_session(&self.snapshot) }));
        if index == self.snapshot.active_pattern_index {
            let occupied = self.undo.clear_tracks();
            push_stale_undo_events(&mut fx, &occupied, Ghost(slots0));
            assert(fx@.drop_first() =~= stale_undo_events(slots0, MAX_TRACKS as nat));
        }
        fx
    }

    /// Snapshot slot `index` for pattern undo, when it holds a pattern.
    fn push_pattern_undo(&mut self, index: usize)
        requires
            index < PATTERN_SLOTS,
            old(self).snapshot.patterns@[index as int] is Some,
        ensures
            *final(self) == (Engine { undo: final(self).undo, ..*old(self) }),
            final(self).undo.track_slots() == old(self).undo.track_slots(),
            pattern_undo_pushed(old(self).undo, final(self).undo, index, old(self).snapshot.patterns@[index as int]->Some_0),
    {
        match &self.snapshot.patterns[index] {
            Some(p) => {
                self.undo.push_pattern(index, p);
            },
            None => {},
        }
    }

    fn tool_copy_pattern(&mut self, index: usize) -> (fx: Vec<Effect>)
        requires
            old(self).wf(),
        ensures
            final(self).wf(),
            copy_pattern_post(*old(self), *final(self), index, fx@),
    {
        self.clipboard.copy_pattern(&self.snapshot, index);
        Vec::new()
    }

    fn tool_clear_pattern(&mut self, index: usize, cut: bool) -> (fx: Vec<Effect>)
        requires
            old(self).wf(),
        ensures
            final(self).wf(),
            clear_pattern_post(*old(self), *final(self), index, cut, fx@),
    {
        if index >= PATTERN_SLOTS || self.snapshot.patterns[index].is_none() {
            return Vec::new();
        }
        self.push_pattern_undo(index);
        let ghost u1 = self.undo;
        if cut {
            let _ = self.clipboard.cut_pattern(&mut self.snapshot, index);
        } else {
            let _ = Clipboard::clear_pattern(&mut self.snapshot, index);
        }
        let fx = self.pattern_changed(index);
        proof {
            assert(self.undo.pattern_slots() == u1.pattern_slots());
        }
        fx
    }

    fn tool_paste_pattern(&mut self, index: usize) -> (fx: Vec<Effect>)
        requires
            old(self).wf(),
        ensures
            final(self).wf(),
            paste_pattern_post(*old(self), *final(self), index, fx@),
    {
        if !self.clipboard.has_pattern() || index >= PATTERN_SLOTS || self.snapshot.patterns[index].is_none() {
            return Vec::new();
        }
        self.push_pattern_undo(index);
        let ghost u1 = self.undo;
        let _ = self.clipboard.paste_pattern(&mut self.snapshot, index);
        let fx = self.pattern_changed(index);
        proof {
            assert(self.undo.pattern_slots() == u1.pattern_slots());
        }
        fx
    }

    fn tool_undo_pattern(&mut self, index: usize) -> (fx: Vec<Effect>)
        requires
            old(self).wf(),
        ensures
            final(self).wf(),
            undo_pattern_post(*old(self), *final(self), index, fx@),
    {
        let ghost u0 = self.undo;
        if index >= PATTERN_SLOTS || self.snapshot.patterns[index].is_none() || !self.undo.available_pattern(index) {
            return Vec::new();
        }
        let _ = self.undo.undo_pattern(&mut self.snapshot, index);
        let ghost u1 = self.undo;
        let fx = self.pattern_changed(index);
        proof {
            assert(self.undo.pattern_slots() == u1.pattern_slots());
        }
        fx
    }
}

/// The session change of a track edit: when track `idx` of the active
/// pattern exists it becomes `f` of itself, otherwise nothing changes.
pub open spec fn track_edited(a: Session, b: Session, idx: usize, f: spec_fn(Track) -> Track) -> bool {
    match track_at(a, a.active_pattern_index as int, idx as int) {
        Some(t0) => track_replaced(a, b, a.active_pattern_index as int, idx as int, f(t0)),
        None => b == a,
    }
}

/// A track length kept in 1..=16.
pub open spec fn clamp_length(length: usize) -> usize {
    if length < 1 {
        1
    } else if length > STEP_COUNT {
        STEP_COUNT
    } else {
        length
    }
}

/// How `SetStep`, `DeleteStep` and `SetRatchet` change a step.
pub enum StepEdit {
    Place(crate::models::VelocityZone),
    Delete,
    Ratchet(crate::models::Ratchet),
}

/// The step a step edit leaves.
pub open spec fn edited_step(s: crate::models::Step, e: StepEdit) -> crate::models::Step {
    match e {
        StepEdit::Place(zone) => crate::models::Step { active: true, velocity_zone: zone, ..s },
        StepEdit::Delete => crate::models::Step { active: false, ..s },
        StepEdit::Ratchet(r) => crate::models::Step { ratchet: r, ..s },
    }
}

impl Engine {
    fn full_snapshot_effect(&self) -> (fx: Vec<Effect>)
        ensures
            fx@.len() == 1,
            is_full_snapshot(fx@[0], self.snapshot@),
    {
        let mut fx: Vec<Effect> = Vec::new();
        fx.push(Effect::Large(EngineEvent::FullSnapshot { session: copy_session(&self.snapshot) }));
        fx
    }

    fn set_track_length(&mut self, idx: usize, length: usize) -> (fx: Vec<Effect>)
        requires
            old(self).wf(),
        ensures
            final(self).wf(),
            track_length_post(*old(self), *final(self), idx, length, fx@),
    {
        let mut fx: Vec<Effect> = Vec::new();
        let ai = self.snapshot.active_pattern_index;
        match get_track(&self.snapshot, ai, idx) {
            Some(t) => {
                let l = if length < 1 { 1 } else if length > STEP_COUNT { STEP_COUNT } else { length };
                replace_track(&mut self.snapshot, ai, idx, Track { length: l, ..t });
                fx.push(Effect::Hot(EngineEvent::TrackLengthChanged { track_idx: idx, length: l }));
            },
            None => {},
        }
        fx
    }

    fn set_track_muted(&mut self, idx: usize, muted: bool) -> (fx: Vec<Effect>)
        requires
            old(self).wf(),
        ensures
            final(self).wf(),
            track_muted_post(*old(self), *final(self), idx, muted, fx@),
    {
        let mut fx: Vec<Effect> = Vec::new();
        let ai = self.snapshot.active_pattern_index;
        match get_track(&self.snapshot, ai, idx) {
            Some(t) => {
                replace_track(&mut self.snapshot, ai, idx, Track { muted, ..t });
                fx.push(Effect::Hot(EngineEvent::TrackMutedChanged { track_idx: idx, muted }));
            },
            None => {},
        }
        fx
    }

    /// Replace track `idx` by `f(track)` when it exists, then deliver a full
    /// snapshot either way (note, speed ratio and swing edits).
    fn set_track_field(&mut self, idx: usize, note: Option<u8>, ratio: Option<u32>, swing: Option<u32>) -> (fx: Vec<Effect>)
        requires
            old(self).wf(),
        ensures
            final(self).wf(),
            track_field_post(*old(self), *final(self), idx, note, ratio, swing, fx@),
    {
        let ai = self.snapshot.active_pattern_index;
        match get_track(&self.snapshot, ai, idx) {
            Some(t) => {
                let midi_note = match note { Some(n) => n, None => t.midi_note };
                let speed_ratio = match ratio { Some(r) => r, None => t.speed_ratio };
                let swing_pct = match swing { Some(w) => w, None => t.swing_pct };
                replace_track(&mut self.snapshot, ai, idx, Track { midi_note, speed_ratio, swing_pct, ..t });
            },
            None => {},
        }
        self.full_snapshot_effect()
    }

    fn edit_step(&mut self, idx: usize, step_idx: usize, e: StepEdit) -> (fx: Vec<Effect>)
        requires
            old(self).wf(),
        ensures
            final(self).wf(),
            edit_step_post(*old(self), *final(self), idx, step_idx, e, fx@),
    {
        let mut fx: Vec<Effect> = Vec::new();
        let ai = self.snapshot.active_pattern_index;
        match get_track(&self.snapshot, ai, idx) {
            Some(t) => {
                if step_idx < STEP_COUNT {
                    let s0 = t.steps[step_idx];
                    let s1 = match e {
                        StepEdit::Place(zone) => crate::models::Step { active: true, velocity_zone: zone, ..s0 },
                        StepEdit::Delete => crate::models::Step { active: false, ..s0 },
                        StepEdit::Ratchet(r) => crate::models::Step { ratchet: r, ..s0 },
                    };
                    let mut t1 = t;
                    t1.steps[step_idx] = s1;
                    replace_track(&mut self.snapshot, ai, idx, t1);
                    fx.push(Effect::Hot(EngineEvent::StepChanged { track_idx: idx, step_idx, step: s1 }));
                    assert(track_at(self.snapshot, ai as int, idx as int) == Some(t1));
                }
            },
            None => {},
        }
        fx
    }

    fn add_track(&mut self) -> (fx: Vec<Effect>)
        requires
            old(self).wf(),
        ensures
            final(self).wf(),
            add_track_post(*old(self), *final(self), fx@),
    {
        let mut fx: Vec<Effect> = Vec::new();
        let ai = self.snapshot.active_pattern_index;
        let taken = self.snapshot.patterns[ai].take();
        match taken {
            Some(mut p) => {
                if p.tracks.len() < MAX_TRACKS {
                    let t = Track::default();
                    let track_idx = p.tracks.len();
                    p.tracks.push(t);
                    fx.push(Effect::Large(EngineEvent::TrackAdded { track_idx, track: t }));
                }
                self.snapshot.patterns[ai] = Some(p);
                assert(self.snapshot.patterns@ =~= old(self).snapshot.patterns@.update(ai as int, Some(p)));
            },
            None => {
                assert(self.snapshot.patterns@ =~= old(self).snapshot.patterns@);
                assert(self.snapshot.patterns == old(self).snapshot.patterns);
            },
        }
        proof {
            if old(self).snapshot.patterns@[ai as int] is Some && old(self).snapshot.patterns@[ai as int]->Some_0.tracks@.len() >= MAX_TRACKS {
                assert(self.snapshot.patterns@ =~= old(self).snapshot.patterns@);
                assert(self.snapshot.patterns == old(self).snapshot.patterns);
            }
        }
        fx
    }

    fn remove_track(&mut self) -> (fx: Vec<Effect>)
        requires
            old(self).wf(),
        ensures
            final(self).wf(),
            remove_track_post(*old(self), *final(self), fx@),
    {
        let mut fx: Vec<Effect> = Vec::new();
        let ai = self.snapshot.active_pattern_index;
        let taken = self.snapshot.patterns[ai].take();
        match taken {
            Some(mut p) => {
                if p.tracks.len() > MIN_TRACKS {
                    let _ = p.tracks.pop();
                    fx.push(Effect::Hot(EngineEvent::TrackRemoved { track_idx: p.tracks.len() }));
                }
                self.snapshot.patterns[ai] = Some(p);
                assert(self.snapshot.patterns@ =~= old(self).snapshot.patterns@.update(ai as int, Some(p)));
            },
            None => {
                assert(self.snapshot.patterns@ =~= old(self).snapshot.patterns@);
                assert(self.snapshot.patterns == old(self).snapshot.patterns);
            },
        }
        proof {
            if old(self).snapshot.patterns@[ai as int] is Some && old(self).snapshot.patterns@[ai as int]->Some_0.tracks@.len() <= MIN_TRACKS {
                assert(self.snapshot.patterns@ =~= old(self).snapshot.patterns@);
                assert(self.snapshot.patterns == old(self).snapshot.patterns);
            }
        }
        fx
    }

    fn set_follow_action(&mut self, pattern_idx: usize, action: crate::models::FollowAction) -> (fx: Vec<Effect>)
        requires
            old(self).wf(),
        ensures
            final(self).wf(),
            follow_action_post(*old(self), *final(self), pattern_idx, action, fx@),
    {
        let mut fx: Vec<Effect> = Vec::new();
        if pattern_idx >= PATTERN_SLOTS {
            return fx;
        }
        let taken = self.snapshot.patterns[pattern_idx].take();
        match taken {
            Some(mut p) => {
                p.follow_action = action;
                self.snapshot.patterns[pattern_idx] = Some(p);
            },
            None => {},
        }
        proof {
            if old(self).snapshot.patterns@[pattern_idx as int] is None {
                assert(self.snapshot.patterns@ =~= old(self).snapshot.patterns@);
                assert(self.snapshot.patterns == old(self).snapshot.patterns);
            }
        }
        fx.push(Effect::Hot(EngineEvent::FollowActionChanged { pattern_idx, action }));
        fx
    }
}

/// A session setting change: the published session becomes `s1` and nothing
/// else changes.
pub open spec fn setting_post(a: Engine, b: Engine, s1: Session) -> bool {
    &&& b.snapshot == s1
    &&& only_snapshot_changed(a, b)
}

/// The commands the interpreter can run: Roll and Vary carry a well-formed
/// strength.
pub open spec fn command_wf(cmd: Command) -> bool {
    match cmd {
        Command::Roll { strength, .. } => strength.wf(),
        Command::Vary { strength, .. } => strength.wf(),
        _ => true,
    }
}

/// What running `cmd` on engine `a` gives: the engine `b` and the effects `fx`.
pub open spec fn command_applied(a: Engine, cmd: Command, b: Engine, fx: Seq<Effect>) -> bool {
    match cmd {
        Command::Play => play_post(a, b, fx),
        Command::Stop => stop_post(a, b, fx),
        Command::SetSyncSource { source } => {
            &&& b == (Engine {
                snapshot: Session { sync_source: source, ..a.snapshot },
                external_clock: ExternalClock { link_enabled: source == crate::models::SyncSource::Link, ..a.external_clock },
                ..a
            })
            &&& fx == seq![
                Effect::Hot(EngineEvent::SyncSourceChanged { source }),
                Effect::SetLinkSession(source == crate::models::SyncSource::Link),
                Effect::Hot(EngineEvent::LinkEnabledChanged { enabled: source == crate::models::SyncSource::Link }),
            ]
        },
        Command::SetLinkEnabled { enabled } => {
            &&& b == (Engine { external_clock: ExternalClock { link_enabled: enabled, ..a.external_clock }, ..a })
            &&& fx == seq![Effect::SetLinkSession(enabled), Effect::Hot(EngineEvent::LinkEnabledChanged { enabled })]
        },
        Command::MidiClockTick => midi_clock_tick_post(a, b, fx) && fx.len() == 0,
        Command::RequestFullSnapshot => b == a && fx.len() == 1 && is_full_snapshot(fx[0], a.snapshot@),
        Command::Serialize => {
            &&& b == a
            &&& fx.len() == 1
            &&& fx[0] matches Effect::SerializeSession(env)
            &&& env.version == SESSION_FORMAT_VERSION
            &&& env.session@ == a.snapshot@
        },
        Command::LoadSession { envelope } => load_session_post(a, b, envelope, fx),
        Command::Roll { track_idx, strength, .. } => roll_post(a, b, track_idx, strength, fx),
        Command::Vary { track_idx, strength, .. } => vary_post(a, b, track_idx, strength, fx),
        Command::Cut { track_idx } => cut_post(a, b, track_idx, fx),
        Command::Copy { track_idx } => copy_post(a, b, track_idx, fx),
        Command::Paste { track_idx } => paste_post(a, b, track_idx, fx),
        Command::Trash { track_idx } => trash_post(a, b, track_idx, fx),
        Command::Undo { track_idx } => undo_post(a, b, track_idx, fx),
        Command::CopyPattern { index } => copy_pattern_post(a, b, index, fx),
        Command::CutPattern { index } => clear_pattern_post(a, b, index, true, fx),
        Command::PastePattern { index } => paste_pattern_post(a, b, index, fx),
        Command::ClearPattern { index } => clear_pattern_post(a, b, index, false, fx),
        Command::UndoPattern { index } => undo_pattern_post(a, b, index, fx),
        Command::QueuePattern { index, quantize } => {
            &&& b == (Engine { scheduler: Scheduler { queued: Some((index, quantize)), ..a.scheduler }, ..a })
            &&& fx.len() == 0
        },
        Command::CancelQueuedPattern => {
            &&& b == (Engine { scheduler: Scheduler { queued: None, ..a.scheduler }, ..a })
            &&& fx.len() == 0
        },
        Command::RetriggerPattern { .. } => {
            &&& b == (Engine { scheduler: Scheduler { retrigger: true, ..a.scheduler }, ..a })
            &&& fx.len() == 0
        },
        Command::SetBpm { bpm } => {
            &&& setting_post(a, b, Session { bpm: bpm_clamped(bpm), ..a.snapshot })
            &&& fx == seq![Effect::Hot(EngineEvent::BpmChanged { bpm: bpm_clamped(bpm) })]
        },
        Command::SetGlobalSwing { pct } => {
            &&& setting_post(a, b, Session { global_swing_pct: pct, ..a.snapshot })
            &&& fx.len() == 1 && is_full_snapshot(fx[0], b.snapshot@)
        },
        Command::SetHumanize { timing, velocity } => {
            &&& setting_post(a, b, Session { humanize_timing: timing, humanize_velocity: velocity, ..a.snapshot })
            &&& fx.len() == 1 && is_full_snapshot(fx[0], b.snapshot@)
        },
        Command::SetGlobalMidiChannel { channel } => {
            &&& setting_post(a, b, Session { global_midi_channel: channel, ..a.snapshot })
            &&& fx.len() == 1 && is_full_snapshot(fx[0], b.snapshot@)
        },
        Command::SetMidiDestinations { endpoints } => {
            &&& b.snapshot == (Session { midi_destinations: endpoints, ..a.snapshot })
            &&& only_snapshot_changed(a, b)
            &&& fx.len() == 1 && is_full_snapshot(fx[0], b.snapshot@)
        },
        Command::SetQuantizeGrain { .. } => b == a && fx.len() == 0,
        Command::LinkPhase { .. } => b == a && fx.len() == 0,
        Command::SetTrackLength { track_idx, length } => track_length_post(a, b, track_idx, length, fx),
        Command::SetTrackMuted { track_idx, muted } => track_muted_post(a, b, track_idx, muted, fx),
        Command::SetTrackNote { track_idx, midi_note } =>
            track_field_post(a, b, track_idx, Some(midi_note), None, None, fx),
        Command::SetTrackSpeedRatio { track_idx, ratio } =>
            track_field_post(a, b, track_idx, None, Some(ratio), None, fx),
        Command::SetTrackSwing { track_idx, swing_pct } =>
            track_field_post(a, b, track_idx, None, None, Some(swing_pct), fx),
        Command::AddTrack => add_track_post(a, b, fx),
        Command::RemoveTrack => remove_track_post(a, b, fx),
        Command::SetStep { track_idx, step_idx, zone } => edit_step_post(a, b, track_idx, step_idx, StepEdit::Place(zone), fx),
        Command::DeleteStep { track_idx, step_idx } => edit_step_post(a, b, track_idx, step_idx, StepEdit::Delete, fx),
        Command::SetRatchet { track_idx, step_idx, ratchet } =>
            edit_step_post(a, b, track_idx, step_idx, StepEdit::Ratchet(ratchet), fx),
        Command::SetFollowAction { pattern_idx, action } => follow_action_post(a, b, pattern_idx, action, fx),
    }
}

impl Engine {
    /// Run one command: the next engine state, and the events and effects to
    /// deliver, in order.
    pub fn apply_command(&mut self, cmd: Command) -> (fx: Vec<Effect>)
        requires
            old(self).wf(),
            command_wf(cmd),
        ensures
            final(self).wf(),
            command_applied(*old(self), cmd, *final(self), fx@),
    {
        match cmd {
            Command::Play => self.play(),
            Command::Stop => self.stop(),
            Command::SetSyncSource { source } => {
                self.snapshot.sync_source = source;
                let mut fx: Vec<Effect> = Vec::new();
                fx.push(Effect::Hot(EngineEvent::SyncSourceChanged { source }));
                let link = match source {
                    crate::models::SyncSource::Link => true,
                    _ => false,
                };
                self.set_link_session(link, &mut fx);
                assert(fx@ =~= seq![
                    Effect::Hot(EngineEvent::SyncSourceChanged { source }),
                    Effect::SetLinkSession(link),
                    Effect::Hot(EngineEvent::LinkEnabledChanged { enabled: link }),
                ]);
                fx
            },
            Command::SetLinkEnabled { enabled } => {
                let mut fx: Vec<Effect> = Vec::new();
                self.set_link_session(enabled, &mut fx);
                assert(fx@ =~= seq![Effect::SetLinkSession(enabled), Effect::Hot(EngineEvent::LinkEnabledChanged { enabled })]);
                fx
            },
            Command::MidiClockTick => {
                self.midi_clock_tick();
                Vec::new()
            },
            Command::RequestFullSnapshot => self.full_snapshot_effect(),
            Command::Serialize => {
                let mut fx: Vec<Effect> = Vec::new();
                fx.push(Effect::SerializeSession(SessionEnvelope::wrap(copy_session(&self.snapshot))));
                fx
            },
            Command::LoadSession { envelope } => self.load_session(envelope),
            Command::Roll { track_idx, strength, .. } => self.tool_roll(track_idx, &strength),
            Command::Vary { track_idx, strength, .. } => self.tool_vary(track_idx, &strength),
            Command::Cut { track_idx } => self.tool_cut(track_idx),
            Command::Copy { track_idx } => self.tool_copy(track_idx),
            Command::Paste { track_idx } => self.tool_paste(track_idx),
            Command::Trash { track_idx } => self.tool_trash(track_idx),
            Command::Undo { track_idx } => self.tool_undo(track_idx),
            Command::CopyPattern { index } => self.tool_copy_pattern(index),
            Command::CutPattern { index } => self.tool_clear_pattern(index, true),
            Command::PastePattern { index } => self.tool_paste_pattern(index),
            Command::ClearPattern { index } => self.tool_clear_pattern(index, false),
            Command::UndoPattern { index } => self.tool_undo_pattern(index),
            Command::QueuePattern { index, quantize } => {
                self.scheduler.queue(index, quantize);
                Vec::new()
            },
            Command::CancelQueuedPattern => {
                self.scheduler.cancel();
                Vec::new()
            },
            Command::RetriggerPattern { .. } => {
                self.scheduler.request_retrigger();
                Vec::new()
            },
            Command::SetBpm { bpm } => {
                let clamped = clamp_bpm_bits(bpm);
                self.snapshot.bpm = clamped;
                let mut fx: Vec<Effect> = Vec::new();
                fx.push(Effect::Hot(EngineEvent::BpmChanged { bpm: clamped }));
                fx
            },
            Command::SetGlobalSwing { pct } => {
                self.snapshot.global_swing_pct = pct;
                self.full_snapshot_effect()
            },
            Command::SetHumanize { timing, velocity } => {
                self.snapshot.humanize_timing = timing;
                self.snapshot.humanize_velocity = velocity;
                self.full_snapshot_effect()
            },
            Command::SetGlobalMidiChannel { channel } => {
                self.snapshot.global_midi_channel = channel;
                self.full_snapshot_effect()
            },
            Command::SetMidiDestinations { endpoints } => {
                self.snapshot.midi_destinations = endpoints;
                self.full_snapshot_effect()
            },
            Command::SetQuantizeGrain { .. } => Vec::new(),
            Command::LinkPhase { .. } => Vec::new(),
            Command::SetTrackLength { track_idx, length } => self.set_track_length(track_idx, length),
            Command::SetTrackMuted { track_idx, muted } => self.set_track_muted(track_idx, muted),
            Command::SetTrackNote { track_idx, midi_note } => self.set_track_field(track_idx, Some(midi_note), None, None),
            Command::SetTrackSpeedRatio { track_idx, ratio } => self.set_track_field(track_idx, None, Some(ratio), None),
            Command::SetTrackSwing { track_idx, swing_pct } => self.set_track_field(track_idx, None, None, Some(swing_pct)),
            Command::AddTrack => self.add_track(),
            Command::RemoveTrack => self.remove_track(),
            Command::SetStep { track_idx, step_idx, zone } => self.edit_step(track_idx, step_idx, StepEdit::Place(zone)),
            Command::DeleteStep { track_idx, step_idx } => self.edit_step(track_idx, step_idx, StepEdit::Delete),
            Command::SetRatchet { track_idx, step_idx, ratchet } =>
                self.edit_step(track_idx, step_idx, StepEdit::Ratchet(ratchet)),
            Command::SetFollowAction { pattern_idx, action } => self.set_follow_action(pattern_idx, action),
        }
    }
}




/// The step at `step_idx` of track `track_idx` of the active pattern, before
/// (in `a`) and after (in `b`) a step edit, when the track exists.
pub open spec fn step_before_after(a: Engine, b: Engine, track_idx: usize, step_idx: usize) -> (crate::models::Step, crate::models::Step) {
    let ai = a.snapshot.active_pattern_index as int;
    (track_at(a.snapshot, ai, track_idx as int)->Some_0.steps@[step_idx as int],
     track_at(b.snapshot, ai, track_idx as int)->Some_0.steps@[step_idx as int])
}

/// Step edits touch only their own fields of the one step they name:
/// `SetRatchet` changes only the ratchet (an empty step stays empty, a hit
/// keeps its zone and micro-timing); `SetStep` makes the step a hit in the
/// given zone and keeps its ratchet and micro-timing; `DeleteStep` clears
/// only the hit. Every other step of the track is left as it was.
pub proof fn law_step_edits_touch_their_fields(a: Engine, cmd: Command, b: Engine, fx: Seq<Effect>, track_idx: usize, step_idx: usize)
    requires
        command_applied(a, cmd, b, fx),
        cmd is SetStep || cmd is DeleteStep || cmd is SetRatchet,
        cmd matches Command::SetStep { track_idx: t, step_idx: s, .. } ==> t == track_idx && s == step_idx,
        cmd matches Command::DeleteStep { track_idx: t, step_idx: s } ==> t == track_idx && s == step_idx,
        cmd matches Command::SetRatchet { track_idx: t, step_idx: s, .. } ==> t == track_idx && s == step_idx,
        step_idx < STEP_COUNT,
        track_at(a.snapshot, a.snapshot.active_pattern_index as int, track_idx as int) is Some,
    ensures
        track_at(b.snapshot, a.snapshot.active_pattern_index as int, track_idx as int) is Some,
        forall|k: int| 0 <= k < STEP_COUNT && k != step_idx ==>
            #[trigger] track_at(b.snapshot, a.snapshot.active_pattern_index as int, track_idx as int)->Some_0.steps@[k]
                == track_at(a.snapshot, a.snapshot.active_pattern_index as int, track_idx as int)->Some_0.steps@[k],
        ({
            let (s0, s1) = step_before_after(a, b, track_idx, step_idx);
            &&& (cmd matches Command::SetRatchet { ratchet, .. } ==> s1.ratchet == ratchet && s1.active == s0.active
                && s1.velocity_zone == s0.velocity_zone && s1.micro_timing_offset == s0.micro_timing_offset)
            &&& (cmd matches Command::SetStep { zone, .. } ==> s1.active && s1.velocity_zone == zone
                && s1.ratchet == s0.ratchet && s1.micro_timing_offset == s0.micro_timing_offset)
            &&& (cmd is DeleteStep ==> !s1.active && s1.velocity_zone == s0.velocity_zone
                && s1.ratchet == s0.ratchet && s1.micro_timing_offset == s0.micro_timing_offset)
        }),
{
}

/// The default session passes validation.
pub proof fn law_default_session_valid(s: Session)
    requires
        crate::models::is_default_session(s),
    ensures
        session_valid(s),
{
    assert forall|i: int| 0 <= i < PATTERN_SLOTS implies (#[trigger] s.patterns@[i] matches Some(p) ==> pattern_valid(p)) by {
        let p = s.patterns@[i]->Some_0;
        assert forall|j: int| 0 <= j < p.tracks@.len() implies 1 <= (#[trigger] p.tracks@[j]).length <= STEP_COUNT by {
            assert(crate::models::is_fresh_track(p.tracks@[j], crate::models::default_kit_note(j)));
        }
    }
}

/// MIDI clock runs at 24 ticks a beat, so six ticks make one 16th: over `n`
/// `MidiClockTick`s (`e[0]` to `e[n]`), with no consumer of the pulses and
/// away from the tick counter's wrap-around, the tick count grows by `n`, one
/// step pulse is added for each multiple of six the tick count passes (from
/// a fresh engine, `n / 6` pulses), and nothing else of the engine changes.
pub proof fn law_clock_ticks_make_steps(e: Seq<Engine>, n: nat)
    requires
        e.len() == n + 1,
        forall|i: int| 0 <= i < n ==> #[trigger] midi_clock_tick_post(e[i], e[i + 1], Seq::empty()),
        e[0].external_clock.midi_ticks + n < 0x1_0000_0000,
        e[0].external_clock.midi_step_pulses + (e[0].external_clock.midi_ticks + n) / 6
            - e[0].external_clock.midi_ticks / 6 < 0x1_0000_0000,
    ensures
        e[n as int].external_clock.midi_ticks == e[0].external_clock.midi_ticks + n,
        e[n as int].external_clock.midi_step_pulses == e[0].external_clock.midi_step_pulses
            + (e[0].external_clock.midi_ticks + n) / 6 - e[0].external_clock.midi_ticks / 6,
        e[0].external_clock.midi_ticks == 0 && e[0].external_clock.midi_step_pulses == 0
            ==> e[n as int].external_clock.midi_step_pulses == n / 6,
        e[n as int] == (Engine {
            external_clock: ExternalClock {
                midi_ticks: e[n as int].external_clock.midi_ticks,
                midi_step_pulses: e[n as int].external_clock.midi_step_pulses,
                ..e[0].external_clock
            },
            ..e[0]
        }),
{
    lemma_ticks_upto(e, n);
}

/// The tick count after `k` ticks, one multiple of six at a time.
proof fn lemma_div6_next(t: int)
    requires
        t >= 0,
    ensures
        (t + 1) % 6 == 0 ==> (t + 1) / 6 == t / 6 + 1,
        (t + 1) % 6 != 0 ==> (t + 1) / 6 == t / 6,
{
}

/// The counters after the first `k` ticks of `e`.
proof fn lemma_ticks_upto(e: Seq<Engine>, k: nat)
    requires
        k < e.len(),
        forall|i: int| 0 <= i < k ==> #[trigger] midi_clock_tick_post(e[i], e[i + 1], Seq::empty()),
        e[0].external_clock.midi_ticks + k < 0x1_0000_0000,
        e[0].external_clock.midi_step_pulses + (e[0].external_clock.midi_ticks + k) / 6
            - e[0].external_clock.midi_ticks / 6 < 0x1_0000_0000,
    ensures
        e[k as int].external_clock.midi_ticks == e[0].external_clock.midi_ticks + k,
        e[k as int].external_clock.midi_step_pulses == e[0].external_clock.midi_step_pulses
            + (e[0].external_clock.midi_ticks + k) / 6 - e[0].external_clock.midi_ticks / 6,
        e[k as int] == (Engine {
            external_clock: ExternalClock {
                midi_ticks: e[k as int].external_clock.midi_ticks,
                midi_step_pulses: e[k as int].external_clock.midi_step_pulses,
                ..e[0].external_clock
            },
            ..e[0]
        }),
    decreases k,
{
    if k > 0 {
        let m = (k - 1) as int;
        let t0 = e[0].external_clock.midi_ticks as int;
        let p0 = e[0].external_clock.midi_step_pulses as int;
        lemma_div6_next(t0 + m);
        lemma_ticks_upto(e, (k - 1) as nat);
        assert(midi_clock_tick_post(e[m], e[m + 1], Seq::empty()));
    }
}

/// Six ticks from a tick count on a 16th boundary add exactly one step pulse.
pub proof fn law_six_clock_ticks_make_one_step(e: Seq<Engine>)
    requires
        e.len() == 7,
        forall|i: int| 0 <= i < 6 ==> midi_clock_tick_post(#[trigger] e[i], e[i + 1], Seq::empty()),
        e[0].external_clock.midi_ticks % 6 == 0,
        e[0].external_clock.midi_ticks + 6 < 0x1_0000_0000,
        e[0].external_clock.midi_step_pulses + 1 < 0x1_0000_0000,
    ensures
        e[6].external_clock.midi_step_pulses == e[0].external_clock.midi_step_pulses + 1,
        e[6].external_clock.midi_ticks == e[0].external_clock.midi_ticks + 6,
{
    let t0 = e[0].external_clock.midi_ticks as int;
    assert((t0 + 6) / 6 - t0 / 6 == 1) by (nonlinear_arith)
        requires t0 % 6 == 0, t0 >= 0;
    law_clock_ticks_make_steps(e, 6);
}

proof fn lemma_replace_back(a: Session, b: Session, c: Session, pi: int, ti: int, t0: Track, t1: Track)
    requires
        0 <= pi < PATTERN_SLOTS,
        track_at(a, pi, ti) == Some(t0),
        track_replaced(a, b, pi, ti, t1),
        track_replaced(b, c, pi, ti, t0),
    ensures
        c@ == a@,
{
    let pa = a.patterns@[pi]->Some_0;
    let pc = c.patterns@[pi]->Some_0;
    assert(pc.tracks@ =~= pa.tracks@);
    assert(c@.patterns =~= a@.patterns);
}

/// A session equal as a value to a valid one is valid.
proof fn lemma_valid_by_view(s1: Session, s2: Session)
    requires
        s1@ == s2@,
        session_valid(s1),
    ensures
        session_valid(s2),
{
    assert forall|i: int| 0 <= i < PATTERN_SLOTS implies (#[trigger] s2.patterns@[i] matches Some(p) ==> pattern_valid(p)) by {
        assert(s1@.patterns[i] == s2@.patterns[i]);
        if s2.patterns@[i] is Some {
            let p2 = s2.patterns@[i]->Some_0;
            let p1 = s1.patterns@[i]->Some_0;
            assert(p1.tracks@ == p2.tracks@);
        }
    }
}

/// Undo takes back a track tool: after Roll, Vary, Cut, Trash or Paste on an
/// existing track of the active pattern, Undo on that track gives back the
/// session as it was before the tool (as a value).
pub proof fn law_undo_takes_back_tool(a: Engine, tool: Command, b: Engine, fx1: Seq<Effect>, idx: usize, c: Engine, fx2: Seq<Effect>)
    requires
        a.wf(),
        command_wf(tool),
        match tool {
            Command::Roll { track_idx, .. } => track_idx == idx,
            Command::Vary { track_idx, .. } => track_idx == idx,
            Command::Cut { track_idx } => track_idx == idx,
            Command::Trash { track_idx } => track_idx == idx,
            Command::Paste { track_idx } => track_idx == idx,
            _ => false,
        },
        idx < MAX_TRACKS,
        track_at(a.snapshot, a.snapshot.active_pattern_index as int, idx as int) is Some,
        command_applied(a, tool, b, fx1),
        command_applied(b, Command::Undo { track_idx: idx }, c, fx2),
    ensures
        c.snapshot@ == a.snapshot@,
{
    let ai = a.snapshot.active_pattern_index as int;
    let t0 = track_at(a.snapshot, ai, idx as int)->Some_0;
    let t1 = track_at(b.snapshot, ai, idx as int)->Some_0;
    a.undo.lemma_slot_counts();
    b.undo.lemma_slot_counts();
    assert(t1.id == t0.id && t1.midi_note == t0.midi_note && t1.swing_pct == t0.swing_pct && t1.muted == t0.muted) by {
        match tool {
            Command::Paste { .. } => {
                if a.clipboard.track_clip() is Some {
                    assert(t1 == crate::clipboard::pasted(t0, a.clipboard.track_clip()->Some_0));
                }
            },
            _ => {},
        }
    }
    assert(b.undo.track_slots()[idx as int] == Some(crate::undo::TrackSnapshot { steps: t0.steps, length: t0.length, speed_ratio: t0.speed_ratio }));
    assert(b.snapshot.active_pattern_index == a.snapshot.active_pattern_index);
    let r = crate::undo::restored(t1, b.undo.track_slots()[idx as int]->Some_0);
    assert(r == t0);
    lemma_replace_back(a.snapshot, b.snapshot, c.snapshot, ai, idx as int, t0, t1);
}

/// Undo Pattern takes back a whole-pattern change: after Cut Pattern, Clear
/// Pattern or Paste Pattern changed slot `index`, Undo Pattern on that slot
/// gives back the session as it was (as a value).
pub proof fn law_undo_pattern_takes_back(a: Engine, change: Command, b: Engine, fx1: Seq<Effect>, index: usize, c: Engine, fx2: Seq<Effect>)
    requires
        a.wf(),
        match change {
            Command::CutPattern { index: i } => i == index,
            Command::ClearPattern { index: i } => i == index,
            Command::PastePattern { index: i } => i == index && a.clipboard.pattern_clip() is Some,
            _ => false,
        },
        index < PATTERN_SLOTS,
        a.snapshot.patterns@[index as int] is Some,
        command_applied(a, change, b, fx1),
        command_applied(b, Command::UndoPattern { index }, c, fx2),
    ensures
        c.snapshot@ == a.snapshot@,
{
    let p0 = a.snapshot.patterns@[index as int]->Some_0;
    let snap = b.undo.pattern_slots()[index as int]->Some_0;
    let pc = c.snapshot.patterns@[index as int]->Some_0;
    assert(pc.tracks@ == p0.tracks@);
    assert(c.snapshot@.patterns[index as int] == a.snapshot@.patterns[index as int]);
    assert(c.snapshot@.patterns =~= a.snapshot@.patterns);
}

/// A saved session loads back: the envelope `Serialize` hands out, loaded
/// with `LoadSession`, gives back the session that was saved (as a value),
/// provided it was a valid session.
pub proof fn law_serialize_then_load(a: Engine, b: Engine, fx1: Seq<Effect>, env: SessionEnvelope, c: Engine, fx2: Seq<Effect>)
    requires
        session_valid(a.snapshot),
        command_applied(a, Command::Serialize, b, fx1),
        fx1[0] == Effect::SerializeSession(env),
        command_applied(b, Command::LoadSession { envelope: Some(env) }, c, fx2),
    ensures
        c.snapshot@ == a.snapshot@,
        fx2.len() >= 1 && is_full_snapshot(fx2[0], a.snapshot@),
{
    lemma_valid_by_view(a.snapshot, env.session);
}

/// How many 16ths the tick loop runs at one wake-up: one when free-running,
/// the MIDI clock step pulses taken since the last wake-up, or under Link the
/// steps from those already run up to the Link target.
pub fn due_ticks(sync: crate::models::SyncSource, midi_pulses: u32, link_target: u64, link_step_count: u64) -> (n: u64)
    ensures
        n == match sync {
            crate::models::SyncSource::Free => 1,
            crate::models::SyncSource::MidiClock => midi_pulses as int,
            crate::models::SyncSource::Link => if link_target > link_step_count { link_target - link_step_count } else { 0 },
        },
{
    match sync {
        crate::models::SyncSource::Free => 1,
        crate::models::SyncSource::MidiClock => midi_pulses as u64,
        crate::models::SyncSource::Link => if link_target > link_step_count { link_target - link_step_count } else { 0 },
    }
}

/// The 16th step a Link position stands at: `link_beats_micros` counts beats
/// in millionths, four 16ths to the beat, whole 16ths only.
pub fn target_step_from_link_beats(link_beats_micros: u64) -> (step: u64)
    ensures
        step == link_beats_micros * 4 / 1_000_000,
{
    link_beats_micros / 250_000
}

/// `rt` aligned to `sixteenths` 16ths into the bar: the global step and the
/// playhead of each track of the active pattern (within the tick's eight) at
/// that position modulo the track's length, its speed accumulator reset.
pub open spec fn aligned_to_bar(a: RtState, b: RtState, session: Session, sixteenths: u32) -> bool {
    let ai = session.active_pattern_index as int;
    let n: int = if ai < PATTERN_SLOTS && session.patterns@[ai] is Some {
        session.patterns@[ai]->Some_0.tracks@.len() as int
    } else {
        0
    };
    &&& b.global_step == sixteenths % 16
    &&& forall|i: int| 0 <= i < MAX_TRACKS ==> #[trigger] b.per_track@[i] == if i < n {
        let len = session.patterns@[ai]->Some_0.tracks@[i].length;
        TrackRtState { step_idx: (sixteenths as int % (if len == 0 { 1 } else { len as int })) as usize, speed_acc: 0 }
    } else {
        a.per_track@[i]
    }
    &&& b.rng == a.rng
    &&& b.link_step_count == a.link_step_count
    &&& b.track_count == a.track_count
    &&& b.loop_count == a.loop_count
}

/// Align the tick state to a host bar position `sixteenths` 16ths past the
/// downbeat, so that a mid-bar start plays the step under the playhead.
pub fn align_to_bar(rt: &mut RtState, session: &Session, sixteenths: u32)
    ensures
        aligned_to_bar(*old(rt), *final(rt), *session, sixteenths),
{
    rt.global_step = sixteenths % 16;
    let ai = session.active_pattern_index;
    if ai >= PATTERN_SLOTS {
        return;
    }
    match &session.patterns[ai] {
        None => {},
        Some(pattern) => {
            let mut idx: usize = 0;
            while idx < pattern.tracks.len() && idx < MAX_TRACKS
                invariant
                    idx <= MAX_TRACKS,
                    idx <= pattern.tracks@.len(),
                    session.patterns@[ai as int] == Some(*pattern),
                    rt.global_step == sixteenths % 16,
                    rt.rng == old(rt).rng,
                    rt.link_step_count == old(rt).link_step_count,
                    rt.track_count == old(rt).track_count,
                    rt.loop_count == old(rt).loop_count,
                    forall|i: int| 0 <= i < idx ==> #[trigger] rt.per_track@[i] == ({
                        let len = pattern.tracks@[i].length;
                        TrackRtState { step_idx: (sixteenths as int % (if len == 0 { 1 } else { len as int })) as usize, speed_acc: 0 }
                    }),
                    forall|i: int| idx <= i < MAX_TRACKS ==> #[trigger] rt.per_track@[i] == old(rt).per_track@[i],
                decreases MAX_TRACKS - idx,
            {
                let len = pattern.tracks[idx].length;
                let l = if len == 0 { 1 } else { len };
                rt.per_track[idx] = TrackRtState { step_idx: (sixteenths as usize) % l, speed_acc: 0 };
                idx = idx + 1;
            }
        },
    }
}

/// `b` is `a` with every track's step index back at 0 (accumulators kept), the
/// bar position at 0 and the loop count at 0.
pub open spec fn rt_restarted(a: RtState, b: RtState) -> bool {
    &&& forall|i: int| 0 <= i < MAX_TRACKS ==> (#[trigger] b.per_track@[i]) == (TrackRtState { step_idx: 0, ..a.per_track@[i] })
    &&& b.global_step == 0
    &&& b.loop_count == 0
    &&& b.rng == a.rng
    &&& b.link_step_count == a.link_step_count
    &&& b.track_count == a.track_count
}

/// The first slot holding a pattern with id `id`.
pub open spec fn slot_with_id(s: Session, id: u128) -> Option<int> {
    if exists|i: int| 0 <= i < PATTERN_SLOTS && (#[trigger] s.patterns@[i] matches Some(p) && p.id == id) {
        Some(choose|i: int| 0 <= i < PATTERN_SLOTS && (#[trigger] s.patterns@[i] matches Some(p) && p.id == id)
            && forall|j: int| 0 <= j < i ==> !(#[trigger] s.patterns@[j] matches Some(q) && q.id == id))
    } else {
        None
    }
}

/// Where a follow action leads from the active slot (for every action but
/// `Stop` and `NoAction`); `PlayRandom` uses the draw after RNG state `x`.
pub open spec fn follow_target(s: Session, action: crate::models::FollowActionType, x: u64) -> int {
    let active = s.active_pattern_index as int;
    match action {
        crate::models::FollowActionType::PlayNext => (active + 1) % (PATTERN_SLOTS as int),
        crate::models::FollowActionType::PlayPrevious => (active + PATTERN_SLOTS - 1) % (PATTERN_SLOTS as int),
        crate::models::FollowActionType::PlaySpecific(id) => match slot_with_id(s, id) {
            Some(i) => i,
            None => active,
        },
        crate::models::FollowActionType::PlayRandom => crate::clock::range_value(0, 8, crate::clock::draw_after(x)),
        _ => active,
    }
}

/// The queued switch that is due at `step`, if any.
pub open spec fn due_switch(sch: Scheduler, step: u32) -> Option<usize> {
    match sch.queued {
        Some((idx, g)) => if crate::scheduler::grain_fires(g, crate::scheduler::grain_at(step)) { Some(idx) } else { None },
        None => None,
    }
}

/// The MIDI ring after an all-notes-off burst on the session's channel.
pub open spec fn burst_after(a: Engine) -> Seq<crate::midi_out::MidiMsg> {
    crate::scheduler::pushed_n(
        midi_ring_contents(a.midi),
        crate::midi::all_notes_off_msg(0, a.snapshot.global_midi_channel),
        MAX_TRACKS as nat,
    )
}

/// What the boundary check does to engine `a` and tick state `r0`.
pub open spec fn scheduler_checked(a: Engine, r0: RtState, b: Engine, r1: RtState, fx: Seq<EngineEvent>) -> bool {
    let retrig = a.scheduler.retrigger;
    let step = if retrig { 0u32 } else { r0.global_step };
    let due = due_switch(a.scheduler, step);
    if retrig || due is Some {
        &&& rt_restarted(r0, r1)
        &&& fx.len() == 0
        &&& b.snapshot == a.snapshot && b.transport == a.transport
        &&& b.undo == a.undo && b.clipboard == a.clipboard && b.external_clock == a.external_clock
        &&& b.reload_generation == a.reload_generation && b.host_driven == a.host_driven
        &&& !b.scheduler.retrigger
        &&& match due {
            Some(i) => {
                &&& b.scheduler.queued is None
                &&& b.scheduler.switch_request == Some(i)
                &&& midi_ring_contents(b.midi) == burst_after(a)
            },
            None => {
                &&& b.scheduler == (Scheduler { retrigger: false, ..a.scheduler })
                &&& b.midi == a.midi
            },
        }
    } else if r0.global_step != 0 {
        b == a && r1 == r0 && fx.len() == 0
    } else {
        let lc = (r0.loop_count + 1) as u32;
        let ai = a.snapshot.active_pattern_index as int;
        let fires = a.snapshot.patterns@[ai] matches Some(p)
            && p.follow_action.action != crate::models::FollowActionType::NoAction
            && lc >= p.follow_action.after_loops;
        let fa = a.snapshot.patterns@[ai]->Some_0.follow_action;
        &&& fx.len() >= 1
        &&& fx[0] == EngineEvent::PatternLoopCountChanged { count: lc }
        &&& b.snapshot == a.snapshot && b.undo == a.undo && b.clipboard == a.clipboard
        &&& b.external_clock == a.external_clock
        &&& b.reload_generation == a.reload_generation && b.host_driven == a.host_driven
        &&& !fires ==> {
            &&& b == a
            &&& r1 == (RtState { loop_count: lc, ..r0 })
            &&& fx.len() == 1
        }
        &&& (fires && fa.action == crate::models::FollowActionType::Stop) ==> {
            &&& b.transport == (Transport {
                is_playing: false,
                stop_generation: ((a.transport.stop_generation + 1) % 0x1_0000_0000) as u32,
            })
            &&& b.midi == a.midi && b.scheduler == a.scheduler
            &&& r1 == (RtState { loop_count: 0, ..r0 })
            &&& fx == seq![
                EngineEvent::PatternLoopCountChanged { count: lc },
                EngineEvent::PlayStateChanged { playing: false },
            ]
        }
        &&& (fires && fa.action != crate::models::FollowActionType::Stop) ==> {
            let next = follow_target(a.snapshot, fa.action, r0.rng.0);
            let rng1 = if fa.action == crate::models::FollowActionType::PlayRandom {
                crate::clock::xorshift64(r0.rng.0)
            } else {
                r0.rng.0
            };
            &&& fx.len() == 1
            &&& b.transport == a.transport
            &&& next != ai ==> {
                &&& rt_restarted(RtState { rng: Rng(rng1), ..r0 }, r1)
                &&& midi_ring_contents(b.midi) == burst_after(a)
                &&& b.scheduler == (Scheduler { switch_request: Some(next as usize), ..a.scheduler })
            }
            &&& next == ai ==> {
                &&& r1 == (RtState { loop_count: 0, rng: Rng(rng1), ..r0 })
                &&& b.midi == a.midi && b.scheduler == a.scheduler
            }
        }
    }
}

/// Index of the first slot holding a pattern with id `id`.
fn find_slot_with_id(s: &Session, id: u128) -> (r: Option<usize>)
    ensures
        r matches Some(i) ==> slot_with_id(*s, id) == Some(i as int),
        r is None ==> slot_with_id(*s, id) is None,
{
    let mut i: usize = 0;
    while i < PATTERN_SLOTS
        invariant
            i <= PATTERN_SLOTS,
            s.patterns@.len() == PATTERN_SLOTS,
            forall|j: int| 0 <= j < i ==> !(#[trigger] s.patterns@[j] matches Some(q) && q.id == id),
        decreases PATTERN_SLOTS - i,
    {
        let hit = match &s.patterns[i] {
            Some(p) => p.id == id,
            None => false,
        };
        if hit {
            assert(s.patterns@[i as int] matches Some(q) && q.id == id);
            assert(slot_with_id(*s, id) == Some(i as int)) by {
                let c = choose|k: int| 0 <= k < PATTERN_SLOTS && (#[trigger] s.patterns@[k] matches Some(p) && p.id == id)
                    && forall|j: int| 0 <= j < k ==> !(#[trigger] s.patterns@[j] matches Some(q) && q.id == id);
                assert(c == i as int);
            }
            return Some(i);
        }
        i = i + 1;
    }
    None
}

/// Restart every track's playhead at step 0 and the bar and loop count at 0.
fn restart_rt(rt: &mut RtState)
    ensures
        rt_restarted(*old(rt), *final(rt)),
{
    let mut i: usize = 0;
    while i < MAX_TRACKS
        invariant
            i <= MAX_TRACKS,
            rt.per_track@.len() == MAX_TRACKS,
            forall|j: int| 0 <= j < i ==> (#[trigger] rt.per_track@[j]) == (TrackRtState { step_idx: 0, ..old(rt).per_track@[j] }),
            forall|j: int| i <= j < MAX_TRACKS ==> #[trigger] rt.per_track@[j] == old(rt).per_track@[j],
            rt.rng == old(rt).rng,
            rt.link_step_count == old(rt).link_step_count,
            rt.track_count == old(rt).track_count,
        decreases MAX_TRACKS - i,
    {
        let t = rt.per_track[i];
        rt.per_track[i] = TrackRtState { step_idx: 0, ..t };
        i = i + 1;
    }
    rt.global_step = 0;
    rt.loop_count = 0;
}

impl Engine {
    /// At a 16th boundary: fire a pending retrigger or a due queued switch
    /// (with an all-notes-off burst), else at the bar start count a loop and
    /// run the active pattern's follow action once it has looped enough.
    pub fn check_scheduler(&mut self, rt: &mut RtState) -> (fx: Vec<EngineEvent>)
        requires
            old(self).wf(),
            old(rt).loop_count < u32::MAX,
        ensures
            final(self).wf(),
            scheduler_checked(*old(self), *old(rt), *final(self), *final(rt), fx@),
    {
        let mut fx: Vec<EngineEvent> = Vec::new();
        let mut reset = false;
        if self.scheduler.take_retrigger() {
            restart_rt(rt);
            reset = true;
        }
        let due = self.scheduler.take_if_due(rt.global_step);
        match due {
            Some(idx) => {
                crate::scheduler::all_notes_off_burst(&self.snapshot, &mut self.midi);
                self.scheduler.request_switch(idx);
                restart_rt(rt);
                reset = true;
            },
            None => {},
        }
        if reset || rt.global_step != 0 {
            return fx;
        }
        rt.loop_count = rt.loop_count + 1;
        fx.push(EngineEvent::PatternLoopCountChanged { count: rt.loop_count });
        let ai = self.snapshot.active_pattern_index;
        let fa = match &self.snapshot.patterns[ai] {
            Some(p) => p.follow_action,
            None => {
                return fx;
            },
        };
        let fires = match fa.action {
            crate::models::FollowActionType::NoAction => false,
            _ => rt.loop_count >= fa.after_loops,
        };
        if !fires {
            return fx;
        }
        let next: usize = match fa.action {
            crate::models::FollowActionType::PlayNext => (ai + 1) % PATTERN_SLOTS,
            crate::models::FollowActionType::PlayPrevious => (ai + PATTERN_SLOTS - 1) % PATTERN_SLOTS,
            crate::models::FollowActionType::PlaySpecific(id) => match find_slot_with_id(&self.snapshot, id) {
                Some(i) => i,
                None => ai,
            },
            crate::models::FollowActionType::PlayRandom => {
                let r = rt.rng.range(0, 8);
                r as usize
            },
            crate::models::FollowActionType::Stop => {
                self.transport.is_playing = false;
                self.transport.stop_generation = self.transport.stop_generation.wrapping_add(1);
                fx.push(EngineEvent::PlayStateChanged { playing: false });
                assert(fx@ =~= seq![
                    EngineEvent::PatternLoopCountChanged { count: rt.loop_count },
                    EngineEvent::PlayStateChanged { playing: false },
                ]);
                rt.loop_count = 0;
                return fx;
            },
            crate::models::FollowActionType::NoAction => ai,
        };
        if next != ai {
            crate::scheduler::all_notes_off_burst(&self.snapshot, &mut self.midi);
            self.scheduler.request_switch(next);
            restart_rt(rt);
        } else {
            rt.loop_count = 0;
        }
        fx
    }
}

/// The per-tick inputs derived from the session's floating-point settings:
/// each track's speed ratio in Q16.16, each track's swing delay of odd steps
/// (µs), each step's micro-timing offset (µs), and the humanize jitter bound
/// for accents and for the other zones.
pub struct TickParams {
    pub ratio_q: [u32; 8],
    pub swing_micros: [i64; 8],
    pub micro_micros: [[i64; 16]; 8],
    pub mag_accent: i32,
    pub mag_other: i32,
}

pub const MAX_OFFSET_MICROS: i64 = 0x100_0000_0000;

impl TickParams {
    pub open spec fn wf(&self) -> bool {
        &&& -0x3FFF_FFFF <= self.mag_accent <= 0x3FFF_FFFF
        &&& -0x3FFF_FFFF <= self.mag_other <= 0x3FFF_FFFF
        &&& forall|i: int| 0 <= i < 8 ==> -MAX_OFFSET_MICROS <= #[trigger] self.swing_micros@[i] <= MAX_OFFSET_MICROS
        &&& forall|i: int, j: int| 0 <= i < 8 && 0 <= j < 16 ==> -MAX_OFFSET_MICROS <= #[trigger] self.micro_micros@[i]@[j] <= MAX_OFFSET_MICROS
    }
}

/// Counters of one tick.
pub struct TickOutcome {
    pub playheads_emitted: u32,
    pub notes_pushed: u32,
}

/// The state a tick threads through: per-track playheads, RNG state, MIDI
/// ring, emitted events and the two counters.
pub struct TickGhost {
    pub per_track: Seq<TrackRtState>,
    pub rng: u64,
    pub ring: Seq<crate::midi_out::MidiMsg>,
    pub events: Seq<EngineEvent>,
    pub notes: nat,
    pub playheads: nat,
}

/// The velocity of a hit on `step` and the RNG state after it.
pub open spec fn hit_velocity(step: crate::models::Step, p: TickParams, x: u64) -> (u8, u64) {
    let mag = if step.velocity_zone == crate::models::VelocityZone::Accent { p.mag_accent } else { p.mag_other };
    let base = crate::midi::zone_velocity(step.velocity_zone);
    if mag == 0 {
        (base, x)
    } else {
        (crate::midi::jittered_velocity(base, mag, crate::clock::draw_after(x)), crate::clock::xorshift64(x))
    }
}

/// The send offset of a hit at step position `si` of track `idx`: the swing
/// delay (odd steps only) plus the step's micro-timing, floored at 0.
pub open spec fn hit_offset(p: TickParams, idx: int, si: int) -> u32 {
    let sw: int = if si % 2 == 1 { p.swing_micros@[idx] as int } else { 0 };
    let sum = sw + p.micro_micros@[idx]@[si % 16];
    (if sum < 0 { 0 } else { sum }) as u32
}

/// One step of track `t` (at index `idx`): advance its playhead, fire its
/// note-ons (one per ratchet hit) when the step is active, emit the playhead.
pub open spec fn fire_one(g: TickGhost, t: Track, idx: int, p: TickParams, endpoint: u32, channel: u8) -> TickGhost {
    let ts = g.per_track[idx];
    let si = ts.step_idx;
    let len: int = if t.length == 0 { 1 } else { t.length as int };
    let next = ((si + 1) % len) as usize;
    let step = t.steps@[(si % 16) as int];
    let g1 = TickGhost { per_track: g.per_track.update(idx, TrackRtState { step_idx: next, ..ts }), ..g };
    let g2 = if step.active {
        let (vel, x1) = hit_velocity(step, p, g.rng);
        let msg = crate::midi::note_on_msg(endpoint, channel, t.midi_note, vel, hit_offset(p, idx, si as int));
        let hits = crate::midi::ratchet_hits(step.ratchet);
        TickGhost { rng: x1, ring: crate::scheduler::pushed_n(g.ring, msg, hits as nat), notes: g.notes + hits as nat, ..g1 }
    } else {
        g1
    };
    TickGhost { events: g2.events.push(EngineEvent::Playhead { track_idx: idx as usize, step_idx: next }), playheads: g2.playheads + 1, ..g2 }
}

/// Swing delays the off-beats only: the note-on an active step fires is sent
/// after the step's micro-timing alone (floored at 0) on an even step
/// position, and after the track's swing delay plus its micro-timing (floored
/// at 0) on an odd one; it plays the track's note on the session channel.
pub proof fn law_swing_delays_odd_steps(g: TickGhost, t: Track, idx: int, p: TickParams, endpoint: u32, channel: u8)
    requires
        0 <= idx < g.per_track.len(),
        0 <= idx < 8,
        t.steps@[(g.per_track[idx].step_idx % 16) as int].active,
    ensures
        ({
            let si = g.per_track[idx].step_idx;
            let m = fire_one(g, t, idx, p, endpoint, channel).ring.last();
            let micro = p.micro_micros@[idx]@[(si % 16) as int] as int;
            let sw = p.swing_micros@[idx] as int;
            &&& si % 2 == 0 ==> m.send_at_offset_micros == (if micro < 0 { 0 } else { micro }) as u32
            &&& si % 2 == 1 ==> m.send_at_offset_micros == (if sw + micro < 0 { 0 } else { sw + micro }) as u32
            &&& m.note == t.midi_note
            &&& m.channel == channel
        }),
{
    let si = g.per_track[idx].step_idx;
    let step = t.steps@[(si % 16) as int];
    let (vel, x1) = hit_velocity(step, p, g.rng);
    let msg = crate::midi::note_on_msg(endpoint, channel, t.midi_note, vel, hit_offset(p, idx, si as int));
    let hits = crate::midi::ratchet_hits(step.ratchet);
    assert(hits >= 1);
    assert(crate::scheduler::pushed_n(g.ring, msg, hits as nat).last() == msg);
}

/// `n` steps of track `t`.
pub open spec fn fire_n(g: TickGhost, t: Track, idx: int, n: nat, p: TickParams, endpoint: u32, channel: u8) -> TickGhost
    decreases n,
{
    if n == 0 {
        g
    } else {
        fire_one(fire_n(g, t, idx, (n - 1) as nat, p, endpoint, channel), t, idx, p, endpoint, channel)
    }
}

/// One tick of track `t` (at index `idx`): unless muted, advance its speed
/// accumulator and fire the whole steps it yields.
pub open spec fn tick_track(g: TickGhost, t: Track, idx: int, p: TickParams, endpoint: u32, channel: u8) -> TickGhost {
    if t.muted {
        g
    } else {
        let ts = g.per_track[idx];
        let (n, acc) = crate::clock::speed_ratio_step(ts.speed_acc, p.ratio_q@[idx]);
        let g1 = TickGhost { per_track: g.per_track.update(idx, TrackRtState { speed_acc: acc, ..ts }), ..g };
        fire_n(g1, t, idx, n as nat, p, endpoint, channel)
    }
}

/// The tick over tracks `j..` (at most the first eight).
pub open spec fn tick_from(g: TickGhost, tracks: Seq<Track>, j: nat, p: TickParams, endpoint: u32, channel: u8) -> TickGhost
    decreases 8 - j,
{
    if j >= tracks.len() || j >= 8 {
        g
    } else {
        tick_from(tick_track(g, tracks[j as int], j as int, p, endpoint, channel), tracks, j + 1, p, endpoint, channel)
    }
}

/// The endpoint notes go to: the first destination, or 0.
pub open spec fn first_endpoint(s: Session) -> u32 {
    if s.midi_destinations@.len() > 0 { s.midi_destinations@[0] } else { 0 }
}

proof fn lemma_pushed_n_bounded(c: Seq<crate::midi_out::MidiMsg>, m: crate::midi_out::MidiMsg, k: nat)
    requires
        c.len() <= MIDI_RING_DEPTH,
    ensures
        crate::scheduler::pushed_n(c, m, k).len() <= MIDI_RING_DEPTH,
    decreases k,
{
    if k > 0 {
        lemma_pushed_n_bounded(c, m, (k - 1) as nat);
    }
}

/// What one tick does: from tick state `r0`, ring `ring0` and event list
/// `ev0` to `r1`, `ring1`, `ev1`, with counters `o`.
pub open spec fn tick_post(
    session: Session,
    playing: bool,
    p: TickParams,
    r0: RtState,
    ring0: Seq<crate::midi_out::MidiMsg>,
    ev0: Seq<EngineEvent>,
    r1: RtState,
    ring1: Seq<crate::midi_out::MidiMsg>,
    ev1: Seq<EngineEvent>,
    o: TickOutcome,
) -> bool {
    let ai = session.active_pattern_index as int;
    if !playing || ai >= PATTERN_SLOTS || session.patterns@[ai] is None {
        &&& r1 == r0
        &&& ring1 == ring0
        &&& ev1 == ev0
        &&& o.notes_pushed == 0 && o.playheads_emitted == 0
    } else {
        let g0 = TickGhost { per_track: r0.per_track@, rng: r0.rng.0, ring: ring0, events: ev0, notes: 0, playheads: 0 };
        let g = tick_from(g0, session.patterns@[ai]->Some_0.tracks@, 0, p, first_endpoint(session), session.global_midi_channel);
        &&& r1.per_track@ == g.per_track
        &&& r1.rng.0 == g.rng
        &&& ring1 == g.ring
        &&& ev1 == g.events
        &&& o.notes_pushed == g.notes
        &&& o.playheads_emitted == g.playheads
        &&& r1.link_step_count == r0.link_step_count
        &&& r1.global_step == r0.global_step
        &&& r1.track_count == r0.track_count
        &&& r1.loop_count == r0.loop_count
    }
}

/// One global 16th for every track of the active pattern: advance the speed
/// accumulators, fire due steps (note-ons on the ring, playheads appended to
/// `events`). Does nothing when not playing or when the active slot is empty.
pub fn process(
    rt: &mut RtState,
    session: &Session,
    playing: bool,
    now_micros: u64,
    midi: &mut MidiOutRing,
    events: &mut Vec<EngineEvent>,
    params: &TickParams,
) -> (outcome: TickOutcome)
    requires
        params.wf(),
        midi_ring_contents(*old(midi)).len() <= MIDI_RING_DEPTH,
        forall|i: int| 0 <= i < MAX_TRACKS ==> (#[trigger] old(rt).per_track@[i]).step_idx < usize::MAX,
    ensures
        midi_ring_contents(*final(midi)).len() <= MIDI_RING_DEPTH,
        forall|i: int| 0 <= i < MAX_TRACKS ==> (#[trigger] final(rt).per_track@[i]).step_idx < usize::MAX,
        tick_post(*session, playing, *params, *old(rt), midi_ring_contents(*old(midi)), old(events)@,
            *final(rt), midi_ring_contents(*final(midi)), final(events)@, outcome),
        !playing ==> *final(midi) == *old(midi),
{
    let _ = now_micros;
    let mut outcome = TickOutcome { playheads_emitted: 0, notes_pushed: 0 };
    if !playing {
        return outcome;
    }
    let ai = session.active_pattern_index;
    if ai >= PATTERN_SLOTS {
        return outcome;
    }
    let pattern = match &session.patterns[ai] {
        Some(p) => p,
        None => {
            return outcome;
        },
    };
    let endpoint: u32 = if session.midi_destinations.len() > 0 { session.midi_destinations[0] } else { 0 };
    let channel = session.global_midi_channel;
    let ghost tracks = pattern.tracks@;
    let ghost g0 = TickGhost {
        per_track: rt.per_track@,
        rng: rt.rng.0,
        ring: midi_ring_contents(*midi),
        events: events@,
        notes: 0,
        playheads: 0,
    };
    let ghost final_g = tick_from(g0, tracks, 0, *params, endpoint, channel);
    let mut idx: usize = 0;
    while idx < pattern.tracks.len() && idx < MAX_TRACKS
        invariant
            idx <= MAX_TRACKS,
            params.wf(),
            tracks == pattern.tracks@,
            rt.per_track@.len() == MAX_TRACKS,
            forall|i: int| 0 <= i < MAX_TRACKS ==> (#[trigger] rt.per_track@[i]).step_idx < usize::MAX,
            midi_ring_contents(*midi).len() <= MIDI_RING_DEPTH,
            outcome.playheads_emitted <= idx * 0x1_0000,
            outcome.notes_pushed <= 4 * outcome.playheads_emitted,
            tick_from(TickGhost {
                per_track: rt.per_track@,
                rng: rt.rng.0,
                ring: midi_ring_contents(*midi),
                events: events@,
                notes: outcome.notes_pushed as nat,
                playheads: outcome.playheads_emitted as nat,
            }, tracks, idx as nat, *params, endpoint, channel) == final_g,
            rt.link_step_count == old(rt).link_step_count,
            rt.global_step == old(rt).global_step,
            rt.track_count == old(rt).track_count,
            rt.loop_count == old(rt).loop_count,
        decreases MAX_TRACKS - idx,
    {
        let track = pattern.tracks[idx];
        if !track.muted {
            let ts = rt.per_track[idx];
            let (steps, new_acc) = crate::clock::advance_speed_ratio(ts.speed_acc, params.ratio_q[idx]);
            rt.per_track[idx] = TrackRtState { speed_acc: new_acc, ..ts };
            let ghost g1 = TickGhost {
                per_track: rt.per_track@,
                rng: rt.rng.0,
                ring: midi_ring_contents(*midi),
                events: events@,
                notes: outcome.notes_pushed as nat,
                playheads: outcome.playheads_emitted as nat,
            };
            let ghost p0 = outcome.playheads_emitted;
            let mut k: u32 = 0;
            while k < steps
                invariant
                    k <= steps,
                    steps < 0x1_0000,
                    idx < MAX_TRACKS,
                    params.wf(),
                    rt.per_track@.len() == MAX_TRACKS,
                    forall|i: int| 0 <= i < MAX_TRACKS ==> (#[trigger] rt.per_track@[i]).step_idx < usize::MAX,
                    midi_ring_contents(*midi).len() <= MIDI_RING_DEPTH,
                    outcome.playheads_emitted == p0 + k,
                    p0 <= idx * 0x1_0000,
                    outcome.notes_pushed <= 4 * outcome.playheads_emitted,
                    (TickGhost {
                        per_track: rt.per_track@,
                        rng: rt.rng.0,
                        ring: midi_ring_contents(*midi),
                        events: events@,
                        notes: outcome.notes_pushed as nat,
                        playheads: outcome.playheads_emitted as nat,
                    }) == fire_n(g1, track, idx as int, k as nat, *params, endpoint, channel),
                    rt.link_step_count == old(rt).link_step_count,
                    rt.global_step == old(rt).global_step,
                    rt.track_count == old(rt).track_count,
                    rt.loop_count == old(rt).loop_count,
                decreases steps - k,
            {
                let ts = rt.per_track[idx];
                let si = ts.step_idx;
                let len = if track.length == 0 { 1 } else { track.length };
                let next = (si + 1) % len;
                rt.per_track[idx] = TrackRtState { step_idx: next, ..ts };
                let step = track.steps[si % STEP_COUNT];
                if step.active {
                    let base = crate::midi::velocity_for_zone(step.velocity_zone);
                    let mag = match step.velocity_zone {
                        crate::models::VelocityZone::Accent => params.mag_accent,
                        _ => params.mag_other,
                    };
                    let vel = crate::midi::jitter_velocity(base, mag, &mut rt.rng);
                    let sw: i64 = if si % 2 == 1 { params.swing_micros[idx] } else { 0 };
                    let sum = sw + params.micro_micros[idx][si % STEP_COUNT];
                    let offset = #[verifier::truncate] ((if sum < 0 { 0 } else { sum }) as u32);
                    let msg = crate::midi::build_note_on(endpoint, channel, track.midi_note, vel, offset);
                    let hits = crate::midi::ratchet_count(step.ratchet);
                    let ghost ring0 = midi_ring_contents(*midi);
                    let mut h: u32 = 0;
                    while h < hits
                        invariant
                            h <= hits,
                            hits <= 4,
                            midi_ring_contents(*midi) == crate::scheduler::pushed_n(ring0, msg, h as nat),
                            midi_ring_contents(*midi).len() <= MIDI_RING_DEPTH,
                        decreases hits - h,
                    {
                        let _ = crate::midi_out::push_drop_oldest(midi, msg);
                        h = h + 1;
                    }
                    outcome.notes_pushed = outcome.notes_pushed + hits;
                }
                events.push(EngineEvent::Playhead { track_idx: idx, step_idx: next });
                outcome.playheads_emitted = outcome.playheads_emitted + 1;
                k = k + 1;
            }
        }
        idx = idx + 1;
    }
    outcome
}

impl Engine {
    /// One global 16th: the tick, then (when playing) the bar position moves on
    /// and the scheduler checks the boundary. Events are appended to `events`.
    pub fn process_one(&mut self, rt: &mut RtState, playing: bool, now_micros: u64, events: &mut Vec<EngineEvent>, params: &TickParams)
        requires
            old(self).wf(),
            params.wf(),
            forall|i: int| 0 <= i < MAX_TRACKS ==> (#[trigger] old(rt).per_track@[i]).step_idx < usize::MAX,
            old(rt).global_step < u32::MAX,
            old(rt).loop_count < u32::MAX,
        ensures
            final(self).wf(),
            forall|i: int| 0 <= i < MAX_TRACKS ==> (#[trigger] final(rt).per_track@[i]).step_idx < usize::MAX,
            playing ==> final(rt).global_step < STEP_COUNT,
            !playing ==> *final(self) == *old(self) && *final(rt) == *old(rt) && final(events)@ == old(events)@,
            playing ==> exists|m: MidiOutRing, r1: RtState, ev1: Seq<EngineEvent>, o: TickOutcome| {
                &&& #[trigger] tick_post(old(self).snapshot, true, *params, *old(rt), midi_ring_contents(old(self).midi), old(events)@,
                    r1, midi_ring_contents(m), ev1, o)
                &&& scheduler_checked(
                    Engine { midi: m, ..*old(self) },
                    RtState { global_step: ((r1.global_step + 1) % 16) as u32, ..r1 },
                    *final(self),
                    *final(rt),
                    final(events)@.skip(ev1.len() as int),
                )
                &&& final(events)@.take(ev1.len() as int) == ev1
            },
    {
        let o = process(rt, &self.snapshot, playing, now_micros, &mut self.midi, events, params);
        if !playing {
            return;
        }
        let ghost m = self.midi;
        let ghost r1 = *rt;
        let ghost ev1 = events@;
        let ghost mid = *self;
        rt.global_step = (rt.global_step + 1) % 16;
        let ghost r2 = *rt;
        let mut more = self.check_scheduler(rt);
        let ghost more_v = more@;
        events.append(&mut more);
        proof {
            assert(mid == (Engine { midi: m, ..*old(self) }));
            assert(r2 == (RtState { global_step: ((r1.global_step + 1) % 16) as u32, ..r1 }));
            assert(events@.skip(ev1.len() as int) =~= more_v);
            assert(events@.take(ev1.len() as int) =~= ev1);
            assert(scheduler_checked(
                Engine { midi: m, ..*old(self) },
                RtState { global_step: ((r1.global_step + 1) % 16) as u32, ..r1 },
                *self,
                *rt,
                events@.skip(ev1.len() as int),
            ));
        }
    }
}

} // verus!
