//! What the editor's widgets decide, apart from drawing: cell states, labels,
//! click cycles, the follow-action draft and the commands buttons emit.

use vstd::prelude::*;
use crate::command::Command;
use crate::models::{
    FollowActionType, Pattern, QuantizeGrain, Ratchet, SyncSource, VelocityZone, MAX_TRACKS,
    MIN_TRACKS, PATTERN_SLOTS,
};

verus! {

/// How many step columns the grid shows.
#[derive(Clone, Copy, Debug, PartialEq, Eq, Structural)]
pub enum Zoom {
    Sixteen,
    Eight,
}

impl Default for Zoom {
    fn default() -> (z: Self)
        ensures
            z == Zoom::Sixteen,
    {
        Zoom::Sixteen
    }
}

/// Step editing, or the pattern launcher.
#[derive(Clone, Copy, Debug, PartialEq, Eq, Structural)]
pub enum AppMode {
    Editing,
    Performance,
}

impl Default for AppMode {
    fn default() -> (m: Self)
        ensures
            m == AppMode::Editing,
    {
        AppMode::Editing
    }
}

/// Corner radii of the theme, in points.
pub struct Radius;

impl Radius {
    pub const SM: u8 = 4;
    pub const MD: u8 = 6;
    pub const LG: u8 = 8;
}

/// The state a pattern cell of the launcher shows.
#[derive(Clone, Copy, Debug, PartialEq, Eq, Structural)]
pub enum CellState {
    Empty,
    Filled,
    Playing,
    Queued,
}

/// The state of cell `idx`: queued before playing before filled before empty.
/// The active cell shows as playing even when its slot is empty.
pub open spec fn cell_state_of(idx: usize, active: usize, queued: Option<usize>, filled: bool) -> CellState {
    if queued == Some(idx) {
        CellState::Queued
    } else if active == idx {
        CellState::Playing
    } else if filled {
        CellState::Filled
    } else {
        CellState::Empty
    }
}

pub fn cell_state(idx: usize, active: usize, queued: Option<usize>, filled: bool) -> (c: CellState)
    ensures
        c == cell_state_of(idx, active, queued, filled),
{
    if queued == Some(idx) {
        CellState::Queued
    } else if active == idx {
        CellState::Playing
    } else if filled {
        CellState::Filled
    } else {
        CellState::Empty
    }
}

pub fn state_label(st: CellState) -> (r: &'static str)
    ensures
        r@ == match st {
            CellState::Empty => "EMPTY"@,
            CellState::Filled => "FILLED"@,
            CellState::Playing => "PLAYING"@,
            CellState::Queued => "QUEUED"@,
        },
{
    match st {
        CellState::Empty => "EMPTY",
        CellState::Filled => "FILLED",
        CellState::Playing => "PLAYING",
        CellState::Queued => "QUEUED",
    }
}

/// The first slot holding a pattern with id `id`.
pub open spec fn slot_of_id(patterns: Seq<Option<Pattern>>, id: u128) -> Option<int> {
    if exists|i: int| 0 <= i < PATTERN_SLOTS && (#[trigger] patterns[i] matches Some(p) && p.id == id) {
        Some(choose|i: int| 0 <= i < PATTERN_SLOTS && (#[trigger] patterns[i] matches Some(p) && p.id == id)
            && forall|j: int| 0 <= j < i ==> !(#[trigger] patterns[j] matches Some(q) && q.id == id))
    } else {
        None
    }
}

fn find_slot(patterns: &[Option<Pattern>; 9], id: u128) -> (r: Option<usize>)
    ensures
        r matches Some(i) ==> slot_of_id(patterns@, id) == Some(i as int),
        r is None ==> slot_of_id(patterns@, id) is None,
{
    let mut i: usize = 0;
    while i < PATTERN_SLOTS
        invariant
            i <= PATTERN_SLOTS,
            forall|j: int| 0 <= j < i ==> !(#[trigger] patterns@[j] matches Some(q) && q.id == id),
        decreases PATTERN_SLOTS - i,
    {
        let hit = match &patterns[i] {
            Some(p) => p.id == id,
            None => false,
        };
        if hit {
            assert(slot_of_id(patterns@, id) == Some(i as int)) by {
                assert(patterns@[i as int] matches Some(p) && p.id == id);
                let c = choose|k: int| 0 <= k < PATTERN_SLOTS && (#[trigger] patterns@[k] matches Some(p) && p.id == id)
                    && forall|j: int| 0 <= j < k ==> !(#[trigger] patterns@[j] matches Some(q) && q.id == id);
                assert(c == i as int);
            }
            return Some(i);
        }
        i = i + 1;
    }
    None
}

/// The slot the active pattern's follow action goes to next: none for no
/// action, Stop and Play Random; the next or previous slot, wrapping over all
/// nine whether filled or not; the slot holding the named pattern, if any.
pub fn next_pattern_index(patterns: &[Option<Pattern>; 9], active: usize, action: &FollowActionType) -> (r: Option<usize>)
    requires
        active + PATTERN_SLOTS <= usize::MAX,
    ensures
        r == match *action {
            FollowActionType::NoAction | FollowActionType::Stop | FollowActionType::PlayRandom => None,
            FollowActionType::PlayNext => Some(((active + 1) % 9) as usize),
            FollowActionType::PlayPrevious => Some(((active + 8) % 9) as usize),
            FollowActionType::PlaySpecific(id) => match slot_of_id(patterns@, id) {
                Some(i) => Some(i as usize),
                None => None,
            },
        },
{
    match action {
        FollowActionType::NoAction | FollowActionType::Stop | FollowActionType::PlayRandom => None,
        FollowActionType::PlayNext => Some((active + 1) % PATTERN_SLOTS),
        FollowActionType::PlayPrevious => Some((active + PATTERN_SLOTS - 1) % PATTERN_SLOTS),
        FollowActionType::PlaySpecific(id) => find_slot(patterns, *id),
    }
}

/// The short General MIDI drum name of a note, "Note" when it has none.
pub fn drum_name(note: u8) -> (r: &'static str)
    ensures
        r@ == (if note == 35 || note == 36 {
            "Kick"@
        } else if note == 37 {
            "Side Stick"@
        } else if note == 38 || note == 40 {
            "Snare"@
        } else if note == 39 {
            "Clap"@
        } else if note == 42 {
            "Closed Hat"@
        } else if note == 44 {
            "Pedal Hat"@
        } else if note == 46 {
            "Open Hat"@
        } else if note == 49 {
            "Crash"@
        } else if note == 51 {
            "Ride"@
        } else {
            "Note"@
        }),
{
    match note {
        35 | 36 => "Kick",
        37 => "Side Stick",
        38 | 40 => "Snare",
        39 => "Clap",
        42 => "Closed Hat",
        44 => "Pedal Hat",
        46 => "Open Hat",
        49 => "Crash",
        51 => "Ride",
        _ => "Note",
    }
}

/// How many repeat marks a ratchet shows (none when off).
pub fn ratchet_repeats(r: Ratchet) -> (n: usize)
    ensures
        n == match r {
            Ratchet::Off => 0usize,
            Ratchet::X2 => 2,
            Ratchet::X3 => 3,
            Ratchet::X4 => 4,
        },
{
    match r {
        Ratchet::Off => 0,
        Ratchet::X2 => 2,
        Ratchet::X3 => 3,
        Ratchet::X4 => 4,
    }
}

pub fn ratchet_label(r: Ratchet) -> (s: &'static str)
    ensures
        s@ == match r {
            Ratchet::Off => "Off"@,
            Ratchet::X2 => "×2"@,
            Ratchet::X3 => "×3"@,
            Ratchet::X4 => "×4"@,
        },
{
    match r {
        Ratchet::Off => "Off",
        Ratchet::X2 => "×2",
        Ratchet::X3 => "×3",
        Ratchet::X4 => "×4",
    }
}

/// What a click on a grid cell does.
#[derive(Clone, Copy, Debug, PartialEq, Eq, Structural)]
pub enum ClickIntent {
    Place(VelocityZone),
    Delete,
}

/// The click cycle: empty to Mid, Mid to Accent, Accent to Low, Low to empty.
pub open spec fn click_cycle(active: bool, zone: VelocityZone) -> ClickIntent {
    if !active {
        ClickIntent::Place(VelocityZone::Mid)
    } else {
        match zone {
            VelocityZone::Mid => ClickIntent::Place(VelocityZone::Accent),
            VelocityZone::Accent => ClickIntent::Place(VelocityZone::Low),
            VelocityZone::Low => ClickIntent::Delete,
        }
    }
}

/// What a click on a cell holding `active` and `zone` does, by the click cycle.
pub fn click_intent(active: bool, zone: VelocityZone) -> (c: ClickIntent)
    ensures
        c == click_cycle(active, zone),
{
    if !active {
        return ClickIntent::Place(VelocityZone::Mid);
    }
    match zone {
        VelocityZone::Mid => ClickIntent::Place(VelocityZone::Accent),
        VelocityZone::Accent => ClickIntent::Place(VelocityZone::Low),
        VelocityZone::Low => ClickIntent::Delete,
    }
}

pub fn grain_label(g: QuantizeGrain) -> (s: &'static str)
    ensures
        s@ == match g {
            QuantizeGrain::NextStep => "Step"@,
            QuantizeGrain::NextBeat => "Beat"@,
            QuantizeGrain::NextBar => "Bar"@,
            QuantizeGrain::EndOfPattern => "Pat"@,
        },
{
    match g {
        QuantizeGrain::NextStep => "Step",
        QuantizeGrain::NextBeat => "Beat",
        QuantizeGrain::NextBar => "Bar",
        QuantizeGrain::EndOfPattern => "Pat",
    }
}

/// The grain after `g` in the cycle step, beat, bar, pattern end, step.
pub fn next_grain(g: QuantizeGrain) -> (n: QuantizeGrain)
    ensures
        n == match g {
            QuantizeGrain::NextStep => QuantizeGrain::NextBeat,
            QuantizeGrain::NextBeat => QuantizeGrain::NextBar,
            QuantizeGrain::NextBar => QuantizeGrain::EndOfPattern,
            QuantizeGrain::EndOfPattern => QuantizeGrain::NextStep,
        },
{
    match g {
        QuantizeGrain::NextStep => QuantizeGrain::NextBeat,
        QuantizeGrain::NextBeat => QuantizeGrain::NextBar,
        QuantizeGrain::NextBar => QuantizeGrain::EndOfPattern,
        QuantizeGrain::EndOfPattern => QuantizeGrain::NextStep,
    }
}

pub fn sync_label(src: SyncSource) -> (s: &'static str)
    ensures
        s@ == match src {
            SyncSource::Free => "Free"@,
            SyncSource::MidiClock => "MIDI"@,
            SyncSource::Link => "Link"@,
        },
{
    match src {
        SyncSource::Free => "Free",
        SyncSource::MidiClock => "MIDI",
        SyncSource::Link => "Link",
    }
}

/// The launcher queues a pattern for the next bar, whatever the grain setting.
pub fn queue_pattern_command(index: usize) -> (c: Command)
    ensures
        c == (Command::QueuePattern { index, quantize: QuantizeGrain::NextBar }),
{
    Command::QueuePattern { index, quantize: QuantizeGrain::NextBar }
}

/// The play/stop toggle stops while playing and plays while stopped.
pub fn transport_action(playing: bool) -> (c: Command)
    ensures
        c == (if playing { Command::Stop } else { Command::Play }),
{
    if playing {
        Command::Stop
    } else {
        Command::Play
    }
}

/// Adding a track is offered below the track limit.
pub fn add_enabled(len: usize) -> (b: bool)
    ensures
        b == (len < MAX_TRACKS),
{
    len < MAX_TRACKS
}

/// Removing a track is offered above the track minimum.
pub fn remove_enabled(len: usize) -> (b: bool)
    ensures
        b == (len > MIN_TRACKS),
{
    len > MIN_TRACKS
}

/// The follow action being edited, without the target's id.
#[derive(Clone, Copy, Debug, PartialEq, Eq, Structural)]
pub enum ActionDraft {
    NoAction,
    PlayNext,
    PlaySpecific,
    PlayPrevious,
    Stop,
    PlayRandom,
}

impl Default for ActionDraft {
    fn default() -> (d: Self)
        ensures
            d == ActionDraft::NoAction,
    {
        ActionDraft::NoAction
    }
}

pub fn draft_label(d: ActionDraft) -> (s: &'static str)
    ensures
        s@ == match d {
            ActionDraft::NoAction => "None"@,
            ActionDraft::PlayNext => "Play Next"@,
            ActionDraft::PlaySpecific => "Play Specific"@,
            ActionDraft::PlayPrevious => "Play Previous"@,
            ActionDraft::Stop => "Stop"@,
            ActionDraft::PlayRandom => "Play Random"@,
        },
{
    match d {
        ActionDraft::NoAction => "None",
        ActionDraft::PlayNext => "Play Next",
        ActionDraft::PlaySpecific => "Play Specific",
        ActionDraft::PlayPrevious => "Play Previous",
        ActionDraft::Stop => "Stop",
        ActionDraft::PlayRandom => "Play Random",
    }
}

/// The follow action a draft saves as. Play Specific takes the id of the
/// pattern in slot `target`; with no pattern there (an empty slot, or an index
/// past the slots, which marks "no target chosen") it saves as no action.
pub open spec fn resolved(draft: ActionDraft, target: usize, patterns: Seq<Option<Pattern>>) -> FollowActionType {
    match draft {
        ActionDraft::NoAction => FollowActionType::NoAction,
        ActionDraft::PlayNext => FollowActionType::PlayNext,
        ActionDraft::PlaySpecific => if target < PATTERN_SLOTS && patterns[target as int] is Some {
            FollowActionType::PlaySpecific(patterns[target as int]->Some_0.id)
        } else {
            FollowActionType::NoAction
        },
        ActionDraft::PlayPrevious => FollowActionType::PlayPrevious,
        ActionDraft::Stop => FollowActionType::Stop,
        ActionDraft::PlayRandom => FollowActionType::PlayRandom,
    }
}

/// The draft an action opens as, with its target slot: for Play Specific the
/// first slot holding the named pattern, or `PATTERN_SLOTS` when none does;
/// 0 for the others.
pub open spec fn drafted(action: FollowActionType, patterns: Seq<Option<Pattern>>) -> (ActionDraft, usize) {
    match action {
        FollowActionType::NoAction => (ActionDraft::NoAction, 0usize),
        FollowActionType::PlayNext => (ActionDraft::PlayNext, 0usize),
        FollowActionType::PlayPrevious => (ActionDraft::PlayPrevious, 0usize),
        FollowActionType::Stop => (ActionDraft::Stop, 0usize),
        FollowActionType::PlayRandom => (ActionDraft::PlayRandom, 0usize),
        FollowActionType::PlaySpecific(id) => (ActionDraft::PlaySpecific, match slot_of_id(patterns, id) {
            Some(i) => i as usize,
            None => PATTERN_SLOTS,
        }),
    }
}

pub fn resolve_action(draft: ActionDraft, specific_target: usize, patterns: &[Option<Pattern>; 9]) -> (a: FollowActionType)
    ensures
        a == resolved(draft, specific_target, patterns@),
{
    match draft {
        ActionDraft::NoAction => FollowActionType::NoAction,
        ActionDraft::PlayNext => FollowActionType::PlayNext,
        ActionDraft::PlaySpecific => {
            if specific_target < PATTERN_SLOTS {
                match &patterns[specific_target] {
                    Some(p) => FollowActionType::PlaySpecific(p.id),
                    None => FollowActionType::NoAction,
                }
            } else {
                FollowActionType::NoAction
            }
        },
        ActionDraft::PlayPrevious => FollowActionType::PlayPrevious,
        ActionDraft::Stop => FollowActionType::Stop,
        ActionDraft::PlayRandom => FollowActionType::PlayRandom,
    }
}

pub fn action_to_draft(action: &FollowActionType, patterns: &[Option<Pattern>; 9]) -> (r: (ActionDraft, usize))
    ensures
        r == drafted(*action, patterns@),
{
    match action {
        FollowActionType::NoAction => (ActionDraft::NoAction, 0),
        FollowActionType::PlayNext => (ActionDraft::PlayNext, 0),
        FollowActionType::PlayPrevious => (ActionDraft::PlayPrevious, 0),
        FollowActionType::Stop => (ActionDraft::Stop, 0),
        FollowActionType::PlayRandom => (ActionDraft::PlayRandom, 0),
        FollowActionType::PlaySpecific(id) => {
            let target = match find_slot(patterns, *id) {
                Some(i) => i,
                None => PATTERN_SLOTS,
            };
            (ActionDraft::PlaySpecific, target)
        },
    }
}

/// The slot `slot_of_id` names holds a pattern with that id.
pub proof fn lemma_slot_of_id_holds(patterns: Seq<Option<Pattern>>, id: u128)
    ensures
        slot_of_id(patterns, id) matches Some(i) ==> 0 <= i < PATTERN_SLOTS && (patterns[i] matches Some(p) && p.id == id),
{
    if exists|i: int| 0 <= i < PATTERN_SLOTS && (#[trigger] patterns[i] matches Some(p) && p.id == id) {
        let w = choose|i: int| 0 <= i < PATTERN_SLOTS && (#[trigger] patterns[i] matches Some(p) && p.id == id);
        let m = lemma_first_slot(patterns, id, w);
        assert(0 <= m < PATTERN_SLOTS && (patterns[m] matches Some(p) && p.id == id)
            && forall|j: int| 0 <= j < m ==> !(#[trigger] patterns[j] matches Some(q) && q.id == id));
    }
}

/// Below any slot holding the id there is a first one.
proof fn lemma_first_slot(patterns: Seq<Option<Pattern>>, id: u128, w: int) -> (m: int)
    requires
        0 <= w < PATTERN_SLOTS,
        patterns[w] matches Some(p) && p.id == id,
    ensures
        0 <= m <= w,
        patterns[m] matches Some(p) && p.id == id,
        forall|j: int| 0 <= j < m ==> !(#[trigger] patterns[j] matches Some(q) && q.id == id),
    decreases w,
{
    if exists|j: int| 0 <= j < w && (#[trigger] patterns[j] matches Some(q) && q.id == id) {
        let j = choose|j: int| 0 <= j < w && (#[trigger] patterns[j] matches Some(q) && q.id == id);
        lemma_first_slot(patterns, id, j)
    } else {
        w
    }
}

/// A follow action opened as a draft and saved unchanged is the action it
/// was, unless it plays a pattern that no slot holds (which saves as no
/// action).
pub proof fn law_draft_round_trip(action: FollowActionType, patterns: Seq<Option<Pattern>>)
    requires
        patterns.len() == PATTERN_SLOTS,
        action matches FollowActionType::PlaySpecific(id) ==> slot_of_id(patterns, id) is Some,
    ensures
        resolved(drafted(action, patterns).0, drafted(action, patterns).1, patterns) == action,
{
    if let FollowActionType::PlaySpecific(id) = action {
        lemma_slot_of_id_holds(patterns, id);
    }
}

} // verus!
