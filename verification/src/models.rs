//! Session, pattern, track and step model.
//!
//! Floating-point quantities (tempo, swing, humanize amounts, speed ratio,
//! micro-timing) are carried as their IEEE-754 bit patterns: the logic of this
//! crate only stores, copies and compares them, and whatever arithmetic is done
//! on them happens at the edges of the program. Pattern and track identities are
//! 128-bit UUID values.

use vstd::prelude::*;

verus! {

pub const MAX_TRACKS: usize = 8;
pub const MIN_TRACKS: usize = 4;
pub const STEP_COUNT: usize = 16;
pub const PATTERN_SLOTS: usize = 9;

/// Bit pattern of the `f64` 120.0, the default tempo.
pub const DEFAULT_BPM_BITS: u64 = 0x405E_0000_0000_0000;
/// Bit pattern of the `f32` 1.0, the default speed ratio.
pub const UNIT_RATIO_BITS: u32 = 0x3F80_0000;

/// The version nibble of `id` reads 4 and its variant bits read `10`.
pub open spec fn is_v4_id(id: u128) -> bool {
    id & 0xF000_C000_0000_0000_0000 == 0x4000_8000_0000_0000_0000
}

/// A random version-4 UUID, as its 128-bit value.
///
/// Calls `uuid::Uuid::new_v4` and reads it back with `Uuid::as_u128`. The crate
/// draws the value from the operating system's generator and then forces the
/// version nibble to 4 and the variant bits to `10`; that is all the contract
/// claims.
#[verifier::external_body]
pub(crate) fn new_v4_id() -> (id: u128)
    ensures
        is_v4_id(id),
{
    uuid::Uuid::new_v4().as_u128()
}

#[derive(Clone, Copy, Debug, PartialEq, Eq, Structural)]
pub enum SyncSource {
    Free,
    MidiClock,
    Link,
}

impl Default for SyncSource {
    fn default() -> (r: Self)
        ensures
            r == SyncSource::Free,
    {
        SyncSource::Free
    }
}

#[derive(Clone, Copy, Debug, PartialEq, Eq, Structural)]
pub enum VelocityZone {
    Low,
    /// A tap places a hit at Mid velocity.
    Mid,
    Accent,
}

impl Default for VelocityZone {
    fn default() -> (r: Self)
        ensures
            r == VelocityZone::Mid,
    {
        VelocityZone::Mid
    }
}

#[derive(Clone, Copy, Debug, PartialEq, Eq, Structural)]
pub enum Ratchet {
    Off,
    X2,
    X3,
    X4,
}

impl Default for Ratchet {
    fn default() -> (r: Self)
        ensures
            r == Ratchet::Off,
    {
        Ratchet::Off
    }
}

#[derive(Clone, Copy, Debug, PartialEq, Eq, Structural)]
pub enum QuantizeGrain {
    NextStep,
    NextBeat,
    NextBar,
    EndOfPattern,
}

impl Default for QuantizeGrain {
    fn default() -> (r: Self)
        ensures
            r == QuantizeGrain::NextStep,
    {
        QuantizeGrain::NextStep
    }
}

/// One step of a track.
#[derive(Clone, Copy, Debug, PartialEq)]
pub struct Step {
    pub active: bool,
    pub velocity_zone: VelocityZone,
    /// `f32` bit pattern of the micro-timing offset (a fraction of a step),
    /// written by Roll and Vary.
    pub micro_timing_offset: u32,
    pub ratchet: Ratchet,
}

/// The empty step: inactive, Mid zone, no offset, no ratchet.
pub open spec fn default_step() -> Step {
    Step { active: false, velocity_zone: VelocityZone::Mid, micro_timing_offset: 0, ratchet: Ratchet::Off }
}

impl Default for Step {
    fn default() -> (r: Self)
        ensures
            r == default_step(),
    {
        Step { active: false, velocity_zone: VelocityZone::Mid, micro_timing_offset: 0, ratchet: Ratchet::Off }
    }
}

/// Sixteen empty steps.
pub fn empty_steps() -> (r: [Step; 16])
    ensures
        forall|i: int| 0 <= i < 16 ==> #[trigger] r@[i] == default_step(),
{
    [Step { active: false, velocity_zone: VelocityZone::Mid, micro_timing_offset: 0, ratchet: Ratchet::Off }; 16]
}

/// A drum lane.
#[derive(Clone, Copy, Debug, PartialEq)]
pub struct Track {
    pub id: u128,
    pub midi_note: u8,
    /// Playback window over `steps`, 1..=16.
    pub length: usize,
    /// `f32` bit pattern of the speed ratio (0.5, 1.0, 2.0, 3.0).
    pub speed_ratio: u32,
    /// `f32` bit pattern of the swing percentage, relative to the global swing.
    pub swing_pct: u32,
    pub muted: bool,
    pub steps: [Step; 16],
}

impl Track {
    /// A fresh track (new id, full length, unit speed, no swing, unmuted,
    /// empty steps) playing `note`.
    pub fn with_note(note: u8) -> (t: Self)
        ensures
            is_v4_id(t.id),
            t.midi_note == note,
            t.length == STEP_COUNT,
            t.speed_ratio == UNIT_RATIO_BITS,
            t.swing_pct == 0,
            !t.muted,
            forall|i: int| 0 <= i < 16 ==> #[trigger] t.steps@[i] == default_step(),
    {
        Track {
            id: new_v4_id(),
            midi_note: note,
            length: STEP_COUNT,
            speed_ratio: UNIT_RATIO_BITS,
            swing_pct: 0,
            muted: false,
            steps: empty_steps(),
        }
    }
}

impl Default for Track {
    /// Kick (note 36) on a fresh track.
    fn default() -> (t: Self)
        ensures
            t.midi_note == 36,
            t.length == STEP_COUNT,
            t.speed_ratio == UNIT_RATIO_BITS,
            t.swing_pct == 0,
            !t.muted,
            forall|i: int| 0 <= i < 16 ==> #[trigger] t.steps@[i] == default_step(),
    {
        Track::with_note(36)
    }
}


#[derive(Clone, Copy, Debug, PartialEq, Eq, Structural)]
pub enum FollowActionType {
    NoAction,
    PlayNext,
    /// Play the pattern with this id.
    PlaySpecific(u128),
    PlayPrevious,
    Stop,
    PlayRandom,
}

impl Default for FollowActionType {
    fn default() -> (r: Self)
        ensures
            r == FollowActionType::NoAction,
    {
        FollowActionType::NoAction
    }
}

/// What a pattern does after it has looped `after_loops` times.
#[derive(Clone, Copy, Debug, PartialEq, Eq, Structural)]
pub struct FollowAction {
    pub after_loops: u32,
    pub action: FollowActionType,
}

impl Default for FollowAction {
    fn default() -> (r: Self)
        ensures
            r == (FollowAction { after_loops: 1, action: FollowActionType::NoAction }),
    {
        FollowAction { after_loops: 1, action: FollowActionType::NoAction }
    }
}

/// A pattern: 4..=8 tracks and a follow action.
#[derive(Clone, Debug, PartialEq)]
pub struct Pattern {
    pub id: u128,
    pub tracks: Vec<Track>,
    pub follow_action: FollowAction,
}

/// A pattern as a value: its track list as a sequence.
pub struct PatternView {
    pub id: u128,
    pub tracks: Seq<Track>,
    pub follow_action: FollowAction,
}

impl View for Pattern {
    type V = PatternView;

    open spec fn view(&self) -> PatternView {
        PatternView { id: self.id, tracks: self.tracks@, follow_action: self.follow_action }
    }
}

pub open spec fn slot_view(o: Option<Pattern>) -> Option<PatternView> {
    match o {
        Some(p) => Some(p@),
        None => None,
    }
}

/// The notes of the default kit: Kick, Snare, Closed Hat, Clap.
pub open spec fn default_kit_note(i: int) -> u8 {
    if i == 0 {
        36
    } else if i == 1 {
        38
    } else if i == 2 {
        42
    } else {
        39
    }
}

/// A freshly made track playing `note`.
pub open spec fn is_fresh_track(t: Track, note: u8) -> bool {
    &&& t.midi_note == note
    &&& t.length == STEP_COUNT
    &&& t.speed_ratio == UNIT_RATIO_BITS
    &&& t.swing_pct == 0
    &&& !t.muted
    &&& forall|i: int| 0 <= i < 16 ==> #[trigger] t.steps@[i] == default_step()
}

/// A pattern as `Pattern::default` makes it (whatever its id).
pub open spec fn is_default_pattern(p: Pattern) -> bool {
    &&& p.tracks@.len() == MIN_TRACKS
    &&& forall|i: int| 0 <= i < MIN_TRACKS ==> is_fresh_track(#[trigger] p.tracks@[i], default_kit_note(i))
    &&& p.follow_action == (FollowAction { after_loops: 1, action: FollowActionType::NoAction })
}

impl Default for Pattern {
    /// A fresh id and the four-track default kit.
    fn default() -> (p: Self)
        ensures
            is_default_pattern(p),
            is_v4_id(p.id),
    {
        let mut tracks: Vec<Track> = Vec::new();
        tracks.push(Track::with_note(36));
        tracks.push(Track::with_note(38));
        tracks.push(Track::with_note(42));
        tracks.push(Track::with_note(39));
        Pattern { id: new_v4_id(), tracks, follow_action: FollowAction::default() }
    }
}

/// The whole musical state.
#[derive(Clone, Debug, PartialEq)]
pub struct Session {
    /// `f64` bit pattern of the tempo in BPM.
    pub bpm: u64,
    pub sync_source: SyncSource,
    /// `f32` bit patterns of the global swing and the humanize amounts.
    pub global_swing_pct: u32,
    pub humanize_timing: u32,
    pub humanize_velocity: u32,
    pub global_midi_channel: u8,
    pub active_pattern_index: usize,
    pub patterns: [Option<Pattern>; 9],
    /// Endpoint references of the MIDI destinations.
    pub midi_destinations: Vec<u32>,
}

/// A session as a value: pattern slots and destinations as sequences.
pub struct SessionView {
    pub bpm: u64,
    pub sync_source: SyncSource,
    pub global_swing_pct: u32,
    pub humanize_timing: u32,
    pub humanize_velocity: u32,
    pub global_midi_channel: u8,
    pub active_pattern_index: usize,
    pub patterns: Seq<Option<PatternView>>,
    pub midi_destinations: Seq<u32>,
}

impl View for Session {
    type V = SessionView;

    open spec fn view(&self) -> SessionView {
        SessionView {
            bpm: self.bpm,
            sync_source: self.sync_source,
            global_swing_pct: self.global_swing_pct,
            humanize_timing: self.humanize_timing,
            humanize_velocity: self.humanize_velocity,
            global_midi_channel: self.global_midi_channel,
            active_pattern_index: self.active_pattern_index,
            patterns: self.patterns@.map_values(|o: Option<Pattern>| slot_view(o)),
            midi_destinations: self.midi_destinations@,
        }
    }
}

/// A session as `Session::default` makes it (whatever its pattern ids).
pub open spec fn is_default_session(s: Session) -> bool {
    &&& s.bpm == DEFAULT_BPM_BITS
    &&& s.sync_source == SyncSource::Free
    &&& s.global_swing_pct == 0
    &&& s.humanize_timing == 0
    &&& s.humanize_velocity == 0
    &&& s.global_midi_channel == 10
    &&& s.active_pattern_index == 0
    &&& forall|i: int| 0 <= i < PATTERN_SLOTS ==> (#[trigger] s.patterns@[i] matches Some(p) && is_default_pattern(p))
    &&& s.midi_destinations@.len() == 0
}

impl Default for Session {
    /// 120 BPM, free-running, channel 10, and a default pattern in every slot.
    fn default() -> (s: Self)
        ensures
            is_default_session(s),
    {
        let patterns = [
            Some(Pattern::default()),
            Some(Pattern::default()),
            Some(Pattern::default()),
            Some(Pattern::default()),
            Some(Pattern::default()),
            Some(Pattern::default()),
            Some(Pattern::default()),
            Some(Pattern::default()),
            Some(Pattern::default()),
        ];
        Session {
            bpm: DEFAULT_BPM_BITS,
            sync_source: SyncSource::Free,
            global_swing_pct: 0,
            humanize_timing: 0,
            humanize_velocity: 0,
            global_midi_channel: 10,
            active_pattern_index: 0,
            patterns,
            midi_destinations: Vec::new(),
        }
    }
}

/// Every track of `p` has a playback length in 1..=16 and `p` has 4..=8 tracks.
pub open spec fn pattern_valid(p: Pattern) -> bool {
    &&& MIN_TRACKS <= p.tracks@.len() <= MAX_TRACKS
    &&& forall|j: int| 0 <= j < p.tracks@.len() ==> 1 <= (#[trigger] p.tracks@[j]).length <= STEP_COUNT
}

/// The invariants that playback assumes of a session: the active index names a
/// slot, and every present pattern is valid.
pub open spec fn session_valid(s: Session) -> bool {
    &&& s.active_pattern_index < PATTERN_SLOTS
    &&& forall|i: int| 0 <= i < PATTERN_SLOTS ==> (#[trigger] s.patterns@[i] matches Some(p) ==> pattern_valid(p))
}

/// All fields of the two sessions other than the pattern slots agree.
pub open spec fn same_settings(a: Session, b: Session) -> bool {
    &&& a.bpm == b.bpm
    &&& a.sync_source == b.sync_source
    &&& a.global_swing_pct == b.global_swing_pct
    &&& a.humanize_timing == b.humanize_timing
    &&& a.humanize_velocity == b.humanize_velocity
    &&& a.global_midi_channel == b.global_midi_channel
    &&& a.active_pattern_index == b.active_pattern_index
    &&& a.midi_destinations@ == b.midi_destinations@
}

/// Every pattern slot other than `pi` is the same in both sessions.
pub open spec fn other_slots_same(a: Session, b: Session, pi: int) -> bool {
    forall|k: int| 0 <= k < PATTERN_SLOTS && k != pi ==> #[trigger] b.patterns@[k] == a.patterns@[k]
}

/// Track `ti` of the pattern in slot `pi`, when both exist.
pub open spec fn track_at(s: Session, pi: int, ti: int) -> Option<Track> {
    if 0 <= pi < PATTERN_SLOTS && s.patterns@[pi] is Some && 0 <= ti < s.patterns@[pi]->Some_0.tracks@.len() {
        Some(s.patterns@[pi]->Some_0.tracks@[ti])
    } else {
        None
    }
}

/// `b` is `a` with track `ti` of pattern `pi` replaced by `t`.
pub open spec fn track_replaced(a: Session, b: Session, pi: int, ti: int, t: Track) -> bool {
    &&& same_settings(a, b)
    &&& other_slots_same(a, b, pi)
    &&& a.patterns@[pi] matches Some(pa)
    &&& b.patterns@[pi] matches Some(pb)
    &&& pb.id == pa.id
    &&& pb.follow_action == pa.follow_action
    &&& pb.tracks@ == pa.tracks@.update(ti, t)
}

/// `b` is `a` with the tracks and follow action of slot `pi` replaced (the
/// pattern keeps its id).
pub open spec fn pattern_content_replaced(a: Session, b: Session, pi: int, tracks: Seq<Track>, fa: FollowAction) -> bool {
    &&& same_settings(a, b)
    &&& other_slots_same(a, b, pi)
    &&& a.patterns@[pi] matches Some(pa)
    &&& b.patterns@[pi] matches Some(pb)
    &&& pb.id == pa.id
    &&& pb.follow_action == fa
    &&& pb.tracks@ == tracks
}

/// Read track `ti` of the pattern in slot `pi`.
pub fn get_track(s: &Session, pi: usize, ti: usize) -> (r: Option<Track>)
    ensures
        r == track_at(*s, pi as int, ti as int),
{
    if pi >= PATTERN_SLOTS {
        return None;
    }
    match &s.patterns[pi] {
        Some(p) => if ti < p.tracks.len() {
            Some(p.tracks[ti])
        } else {
            None
        },
        None => None,
    }
}

/// Replace track `ti` of the pattern in slot `pi`.
pub fn replace_track(s: &mut Session, pi: usize, ti: usize, t: Track)
    requires
        track_at(*old(s), pi as int, ti as int) is Some,
    ensures
        track_replaced(*old(s), *final(s), pi as int, ti as int, t),
{
    let taken = s.patterns[pi].take();
    match taken {
        Some(mut p) => {
            p.tracks.set(ti, t);
            s.patterns[pi] = Some(p);
        },
        None => {},
    }
}

/// A copy of a track list.
pub fn copy_tracks(v: &Vec<Track>) -> (r: Vec<Track>)
    ensures
        r@ == v@,
{
    let mut r: Vec<Track> = Vec::new();
    let mut i: usize = 0;
    while i < v.len()
        invariant
            i <= v.len(),
            r@ == v@.take(i as int),
        decreases v.len() - i,
    {
        r.push(v[i]);
        i = i + 1;
        assert(r@ =~= v@.take(i as int));
    }
    assert(v@.take(v.len() as int) =~= v@);
    r
}

/// Replace the tracks and follow action of the pattern in slot `pi`, keeping
/// its id.
pub fn replace_pattern_content(s: &mut Session, pi: usize, tracks: Vec<Track>, fa: FollowAction)
    requires
        pi < PATTERN_SLOTS,
        old(s).patterns@[pi as int] is Some,
    ensures
        pattern_content_replaced(*old(s), *final(s), pi as int, tracks@, fa),
{
    let taken = s.patterns[pi].take();
    match taken {
        Some(mut p) => {
            p.tracks = tracks;
            p.follow_action = fa;
            s.patterns[pi] = Some(p);
        },
        None => {},
    }
}

/// A copy of a pattern.
pub fn copy_pattern(p: &Pattern) -> (r: Pattern)
    ensures
        r@ == p@,
{
    Pattern { id: p.id, tracks: copy_tracks(&p.tracks), follow_action: p.follow_action }
}

fn copy_slot(o: &Option<Pattern>) -> (r: Option<Pattern>)
    ensures
        slot_view(r) == slot_view(*o),
{
    match o {
        Some(p) => Some(copy_pattern(p)),
        None => None,
    }
}

/// A copy of a list of endpoint references.
pub fn copy_endpoints(v: &Vec<u32>) -> (r: Vec<u32>)
    ensures
        r@ == v@,
{
    let mut r: Vec<u32> = Vec::new();
    let mut i: usize = 0;
    while i < v.len()
        invariant
            i <= v.len(),
            r@ == v@.take(i as int),
        decreases v.len() - i,
    {
        r.push(v[i]);
        i = i + 1;
        assert(r@ =~= v@.take(i as int));
    }
    assert(v@.take(v.len() as int) =~= v@);
    r
}

/// A copy of a session.
pub fn copy_session(s: &Session) -> (r: Session)
    ensures
        r@ == s@,
{
    let patterns = [
        copy_slot(&s.patterns[0]),
        copy_slot(&s.patterns[1]),
        copy_slot(&s.patterns[2]),
        copy_slot(&s.patterns[3]),
        copy_slot(&s.patterns[4]),
        copy_slot(&s.patterns[5]),
        copy_slot(&s.patterns[6]),
        copy_slot(&s.patterns[7]),
        copy_slot(&s.patterns[8]),
    ];
    let r = Session {
        bpm: s.bpm,
        sync_source: s.sync_source,
        global_swing_pct: s.global_swing_pct,
        humanize_timing: s.humanize_timing,
        humanize_velocity: s.humanize_velocity,
        global_midi_channel: s.global_midi_channel,
        active_pattern_index: s.active_pattern_index,
        patterns,
        midi_destinations: copy_endpoints(&s.midi_destinations),
    };
    assert(r@.patterns =~= s@.patterns);
    r
}

/// The zone of step `i` of track `j` in the demo beat, if the step is hit:
/// four-on-the-floor kick, backbeat snare, eighth-note hats (accents on kick
/// and snare).
pub open spec fn demo_hit(j: int, i: int) -> Option<VelocityZone> {
    if j == 0 && i % 4 == 0 {
        Some(VelocityZone::Accent)
    } else if j == 1 && (i == 4 || i == 12) {
        Some(VelocityZone::Accent)
    } else if j == 2 && i % 2 == 0 {
        Some(VelocityZone::Mid)
    } else {
        None
    }
}

/// Step `i` of track `j` of the demo beat.
pub open spec fn demo_step(j: int, i: int) -> Step {
    match demo_hit(j, i) {
        Some(z) => Step { active: true, velocity_zone: z, ..default_step() },
        None => default_step(),
    }
}

/// The session a host plugin starts with: the default session with a basic
/// beat in the first pattern.
pub fn demo_session() -> (s: Session)
    ensures
        s.bpm == DEFAULT_BPM_BITS,
        s.sync_source == SyncSource::Free,
        s.global_swing_pct == 0 && s.humanize_timing == 0 && s.humanize_velocity == 0,
        s.global_midi_channel == 10,
        s.active_pattern_index == 0,
        s.midi_destinations@.len() == 0,
        forall|k: int| 1 <= k < PATTERN_SLOTS ==> (#[trigger] s.patterns@[k] matches Some(p) && is_default_pattern(p)),
        s.patterns@[0] matches Some(p) && p.tracks@.len() == MIN_TRACKS
            && p.follow_action == (FollowAction { after_loops: 1, action: FollowActionType::NoAction })
            && forall|j: int| 0 <= j < MIN_TRACKS ==> {
                let t = #[trigger] p.tracks@[j];
                &&& t.midi_note == default_kit_note(j)
                &&& t.length == STEP_COUNT
                &&& t.speed_ratio == UNIT_RATIO_BITS
                &&& t.swing_pct == 0
                &&& !t.muted
                &&& forall|i: int| 0 <= i < 16 ==> #[trigger] t.steps@[i] == demo_step(j, i)
            },
{
    let mut s = Session::default();
    let ghost s0 = s;
    let taken = s.patterns[0].take();
    match taken {
        Some(mut p) => {
            let ghost p0 = p;
            let mut j: usize = 0;
            while j < 3
                invariant
                    j <= 3,
                    is_default_pattern(p0),
                    p.tracks@.len() == MIN_TRACKS,
                    p.id == p0.id,
                    p.follow_action == p0.follow_action,
                    forall|k: int| 0 <= k < MIN_TRACKS ==> {
                        let t = #[trigger] p.tracks@[k];
                        let t0 = p0.tracks@[k];
                        &&& t.id == t0.id
                        &&& t.midi_note == t0.midi_note
                        &&& t.length == t0.length
                        &&& t.speed_ratio == t0.speed_ratio
                        &&& t.swing_pct == t0.swing_pct
                        &&& t.muted == t0.muted
                        &&& forall|i: int| 0 <= i < 16 ==> #[trigger] t.steps@[i] == if k < j { demo_step(k, i) } else { default_step() }
                    },
                decreases 3 - j,
            {
                let mut t = p.tracks[j];
                let mut i: usize = 0;
                while i < 16
                    invariant
                        j < 3,
                        i <= 16,
                        p.tracks@.len() == MIN_TRACKS,
                        forall|m: int| 0 <= m < 16 ==> #[trigger] p.tracks@[j as int].steps@[m] == default_step(),
                        t == (Track { steps: t.steps, ..p.tracks@[j as int] }),
                        forall|m: int| 0 <= m < 16 ==> #[trigger] t.steps@[m] == if m < i { demo_step(j as int, m) } else { p.tracks@[j as int].steps@[m] },
                    decreases 16 - i,
                {
                    let hit = if j == 0 {
                        i % 4 == 0
                    } else if j == 1 {
                        i == 4 || i == 12
                    } else {
                        i % 2 == 0
                    };
                    if hit {
                        let zone = if j == 2 { VelocityZone::Mid } else { VelocityZone::Accent };
                        t.steps[i] = Step { active: true, velocity_zone: zone, ..t.steps[i] };
                    }
                    i = i + 1;
                }
                p.tracks.set(j, t);
                j = j + 1;
            }
            s.patterns[0] = Some(p);
        },
        None => {},
    }
    s
}

} // verus!
