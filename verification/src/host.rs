//! Host-driven rendering: the 3-byte MIDI event with a sample offset, and the
//! fixed-size queue of MIDI events scheduled at absolute sample times (note-offs
//! whose gate outlasts a block, note-ons pushed past their block by swing).

use vstd::prelude::*;
use crate::midi_out::MidiMsg;

verus! {

/// One 3-byte MIDI message at a sample offset within the current block.
#[derive(Clone, Copy, Debug, PartialEq, Eq, Structural)]
pub struct MidiEvent {
    pub sample_offset: u32,
    pub status: u8,
    pub data1: u8,
    pub data2: u8,
}

impl MidiEvent {
    pub fn zero() -> (e: Self)
        ensures
            e == (MidiEvent { sample_offset: 0, status: 0, data1: 0, data2: 0 }),
    {
        MidiEvent { sample_offset: 0, status: 0, data1: 0, data2: 0 }
    }
}

/// Maximum simultaneously scheduled events.
pub const PENDING_OFF_DEPTH: usize = 64;

/// A slot of the pending queue.
#[derive(Clone, Copy, Debug, PartialEq, Eq, Structural)]
pub struct PendingMidiEvent {
    pub abs_sample: u64,
    pub status: u8,
    pub data1: u8,
    pub data2: u8,
    pub active: bool,
}

pub open spec fn inactive_slot() -> PendingMidiEvent {
    PendingMidiEvent { abs_sample: 0, status: 0, data1: 0, data2: 0, active: false }
}

/// The queue of MIDI events scheduled at absolute sample times.
pub struct PendingMidiQueue {
    slots: [PendingMidiEvent; 64],
}

impl View for PendingMidiQueue {
    type V = Seq<PendingMidiEvent>;

    closed spec fn view(&self) -> Seq<PendingMidiEvent> {
        self.slots@
    }
}

/// Index of the first inactive slot, if any.
pub open spec fn first_free(s: Seq<PendingMidiEvent>) -> Option<int> {
    if exists|i: int| 0 <= i < s.len() && !(#[trigger] s[i]).active
        && forall|j: int| 0 <= j < i ==> (#[trigger] s[j]).active {
        Some(choose|i: int| 0 <= i < s.len() && !(#[trigger] s[i]).active
            && forall|j: int| 0 <= j < i ==> (#[trigger] s[j]).active)
    } else {
        None
    }
}

/// `i` is the first slot holding the largest scheduled time.
pub open spec fn is_furthest(s: Seq<PendingMidiEvent>, i: int) -> bool {
    &&& 0 <= i < s.len()
    &&& forall|j: int| 0 <= j < s.len() ==> (#[trigger] s[j]).abs_sample <= s[i].abs_sample
    &&& forall|j: int| 0 <= j < i ==> (#[trigger] s[j]).abs_sample < s[i].abs_sample
}

/// A slot is due in `[start, end)`.
pub open spec fn is_due(p: PendingMidiEvent, start: u64, end: u64) -> bool {
    p.active && start <= p.abs_sample && p.abs_sample < end
}

/// The block-relative event a due slot becomes.
pub open spec fn due_event(p: PendingMidiEvent, start: u64) -> MidiEvent {
    MidiEvent { sample_offset: (p.abs_sample - start) as u32, status: p.status, data1: p.data1, data2: p.data2 }
}

/// The due slots of `s`, in slot order, as block-relative events.
pub open spec fn due_events(s: Seq<PendingMidiEvent>, start: u64, end: u64) -> Seq<MidiEvent>
    decreases s.len(),
{
    if s.len() == 0 {
        Seq::empty()
    } else {
        let prev = due_events(s.drop_last(), start, end);
        if is_due(s.last(), start, end) {
            prev.push(due_event(s.last(), start))
        } else {
            prev
        }
    }
}

/// `s` with its due slots deactivated.
pub open spec fn after_drain(s: Seq<PendingMidiEvent>, start: u64, end: u64) -> Seq<PendingMidiEvent> {
    Seq::new(s.len(), |i: int| if is_due(s[i], start, end) {
        PendingMidiEvent { active: false, ..s[i] }
    } else {
        s[i]
    })
}

/// `b` is `a` after scheduling `(abs_sample, status, data1, data2)`: the first
/// free slot takes it; when none is free, the first slot holding the latest
/// time is replaced if the new time is sooner, and nothing changes otherwise.
pub open spec fn scheduled(a: Seq<PendingMidiEvent>, b: Seq<PendingMidiEvent>, abs_sample: u64, status: u8, data1: u8, data2: u8) -> bool {
    let ev = PendingMidiEvent { abs_sample, status, data1, data2, active: true };
    &&& b.len() == a.len()
    &&& match first_free(a) {
        Some(i) => b == a.update(i, ev),
        None => exists|v: int| is_furthest(a, v) && if abs_sample < a[v].abs_sample {
            b == a.update(v, ev)
        } else {
            b == a
        },
    }
}

impl PendingMidiQueue {
    pub fn new() -> (q: Self)
        ensures
            q@.len() == PENDING_OFF_DEPTH,
            forall|i: int| 0 <= i < PENDING_OFF_DEPTH ==> #[trigger] q@[i] == inactive_slot(),
    {
        PendingMidiQueue {
            slots: [PendingMidiEvent { abs_sample: 0, status: 0, data1: 0, data2: 0, active: false }; 64],
        }
    }

    /// Schedule a message at absolute sample `abs_sample`: into the first free
    /// slot; when all are taken, it replaces the first slot holding the latest
    /// time if it is sooner than that, and is dropped otherwise.
    pub fn schedule(&mut self, abs_sample: u64, status: u8, data1: u8, data2: u8)
        ensures
            scheduled(old(self)@, final(self)@, abs_sample, status, data1, data2),
    {
        let mut victim: usize = 0;
        let mut victim_abs: u64 = 0;
        let mut i: usize = 0;
        while i < PENDING_OFF_DEPTH
            invariant
                i <= PENDING_OFF_DEPTH,
                self@ == old(self)@,
                self@.len() == PENDING_OFF_DEPTH,
                forall|j: int| 0 <= j < i ==> (#[trigger] self@[j]).active,
                victim < PENDING_OFF_DEPTH,
                i == 0 ==> victim == 0 && victim_abs == 0,
                i > 0 ==> victim < i && victim_abs == self@[victim as int].abs_sample,
                forall|j: int| 0 <= j < i ==> (#[trigger] self@[j]).abs_sample <= victim_abs,
                forall|j: int| 0 <= j < victim ==> (#[trigger] self@[j]).abs_sample < victim_abs,
            decreases PENDING_OFF_DEPTH - i,
        {
            let s = self.slots[i];
            if !s.active {
                assert(first_free(old(self)@) == Some(i as int)) by {
                    assert(!self@[i as int].active);
                    let c = choose|k: int| 0 <= k < self@.len() && !(#[trigger] self@[k]).active
                        && forall|j: int| 0 <= j < k ==> (#[trigger] self@[j]).active;
                    assert(c == i as int);
                }
                self.slots[i] = PendingMidiEvent { abs_sample, status, data1, data2, active: true };
                return;
            }
            if i == 0 || s.abs_sample > victim_abs {
                victim = i;
                victim_abs = s.abs_sample;
            }
            i = i + 1;
        }
        assert(first_free(old(self)@) is None);
        assert(is_furthest(old(self)@, victim as int));
        if abs_sample < self.slots[victim].abs_sample {
            self.slots[victim] = PendingMidiEvent { abs_sample, status, data1, data2, active: true };
        }
    }

    /// Append every event due in `[block_start_abs, block_end_abs)` to `out`,
    /// in slot order, with its offset relative to `block_start_abs`, and
    /// deactivate it.
    pub fn drain_due(&mut self, block_start_abs: u64, block_end_abs: u64, out: &mut Vec<MidiEvent>)
        ensures
            final(self)@ == after_drain(old(self)@, block_start_abs, block_end_abs),
            final(out)@ == old(out)@ + due_events(old(self)@, block_start_abs, block_end_abs),
    {
        let ghost s0 = self@;
        let mut i: usize = 0;
        while i < PENDING_OFF_DEPTH
            invariant
                i <= PENDING_OFF_DEPTH,
                s0 == old(self)@,
                s0.len() == PENDING_OFF_DEPTH,
                self@.len() == PENDING_OFF_DEPTH,
                forall|j: int| 0 <= j < i ==> #[trigger] self@[j] == after_drain(s0, block_start_abs, block_end_abs)[j],
                forall|j: int| i <= j < PENDING_OFF_DEPTH ==> #[trigger] self@[j] == s0[j],
                out@ == old(out)@ + due_events(s0.take(i as int), block_start_abs, block_end_abs),
            decreases PENDING_OFF_DEPTH - i,
        {
            let s = self.slots[i];
            assert(s0.take(i + 1).drop_last() =~= s0.take(i as int));
            if s.active && s.abs_sample >= block_start_abs && s.abs_sample < block_end_abs {
                out.push(MidiEvent {
                    sample_offset: (s.abs_sample - block_start_abs) as u32,
                    status: s.status,
                    data1: s.data1,
                    data2: s.data2,
                });
                self.slots[i] = PendingMidiEvent { active: false, ..s };
            }
            i = i + 1;
        }
        assert(s0.take(PENDING_OFF_DEPTH as int) =~= s0);
        assert(self@ =~= after_drain(s0, block_start_abs, block_end_abs));
    }

    /// Deactivate every slot.
    pub fn clear(&mut self)
        ensures
            final(self)@.len() == old(self)@.len(),
            forall|i: int| 0 <= i < final(self)@.len() ==> !(#[trigger] final(self)@[i]).active,
            forall|i: int| 0 <= i < final(self)@.len() ==> (#[trigger] final(self)@[i]) == (PendingMidiEvent { active: false, ..old(self)@[i] }),
    {
        let mut i: usize = 0;
        while i < PENDING_OFF_DEPTH
            invariant
                i <= PENDING_OFF_DEPTH,
                self@.len() == PENDING_OFF_DEPTH,
                old(self)@.len() == PENDING_OFF_DEPTH,
                forall|j: int| 0 <= j < i ==> #[trigger] self@[j] == (PendingMidiEvent { active: false, ..old(self)@[j] }),
                forall|j: int| i <= j < PENDING_OFF_DEPTH ==> #[trigger] self@[j] == old(self)@[j],
            decreases PENDING_OFF_DEPTH - i,
        {
            let s = self.slots[i];
            self.slots[i] = PendingMidiEvent { active: false, ..s };
            i = i + 1;
        }
    }
}

/// `out` with `e` appended when it holds fewer than `cap` events.
pub open spec fn push_capped(out: Seq<MidiEvent>, cap: usize, e: MidiEvent) -> Seq<MidiEvent> {
    if out.len() < cap { out.push(e) } else { out }
}

/// A note-on whose gate asks for a matching note-off.
pub open spec fn wants_note_off(m: MidiMsg) -> bool {
    (m.status & 0xF0u8) == 0x90u8 && m.gate_micros > 0
}

/// The note-off status for a note-on status: `0x9X` becomes `0x8X`, channel kept.
pub open spec fn note_off_status(status: u8) -> u8 {
    status.wrapping_sub(0x10u8)
}

/// What placing one message of a boundary does to the block's output `out0`
/// (capacity `cap`) and the pending queue `p0`, giving `out1` and `p1`.
/// `sub_samples` is the message's send offset and `gate_samples` its gate,
/// both already in samples.
pub open spec fn emitted(
    m: MidiMsg,
    boundary_offset: u32,
    block_samples: u64,
    block_start_abs: u64,
    sub_samples: u32,
    gate_samples: u64,
    cap: usize,
    out0: Seq<MidiEvent>,
    p0: Seq<PendingMidiEvent>,
    out1: Seq<MidiEvent>,
    p1: Seq<PendingMidiEvent>,
) -> bool {
    let on_within = boundary_offset.saturating_add(sub_samples);
    let on_abs = (block_start_abs + on_within) as u64;
    let off_status = note_off_status(m.status);
    if (on_within as u64) < block_samples {
        let o1 = push_capped(out0, cap, MidiEvent { sample_offset: on_within, status: m.status, data1: m.note, data2: m.velocity });
        if wants_note_off(m) {
            let off_within = on_within + gate_samples;
            if off_within < block_samples {
                &&& out1 == push_capped(o1, cap, MidiEvent { sample_offset: off_within as u32, status: off_status, data1: m.note, data2: 0 })
                &&& p1 == p0
            } else {
                &&& out1 == o1
                &&& scheduled(p0, p1, (block_start_abs + off_within) as u64, off_status, m.note, 0)
            }
        } else {
            out1 == o1 && p1 == p0
        }
    } else {
        &&& out1 == out0
        &&& if wants_note_off(m) {
            exists|mid: Seq<PendingMidiEvent>| #[trigger] scheduled(p0, mid, on_abs, m.status, m.note, m.velocity)
                && scheduled(mid, p1, (on_abs + gate_samples) as u64, off_status, m.note, 0)
        } else {
            scheduled(p0, p1, on_abs, m.status, m.note, m.velocity)
        }
    }
}

/// Place one message fired at a 16th boundary `boundary_offset` samples into
/// the block. A note-on due within the block is written to `out`, up to `cap`
/// entries in all. Its note-off follows it there if its length ends in this
/// block, and is scheduled on `pending` if not. A note-on landing past the
/// block's end is scheduled on `pending`, with its note-off.
pub fn emit_midi_msg(
    msg: &MidiMsg,
    boundary_offset: u32,
    block_samples: u64,
    block_start_abs: u64,
    sub_samples: u32,
    gate_samples: u64,
    pending: &mut PendingMidiQueue,
    out: &mut Vec<MidiEvent>,
    cap: usize,
)
    requires
        block_start_abs + boundary_offset.saturating_add(sub_samples) <= u64::MAX,
        wants_note_off(*msg) ==> block_start_abs + boundary_offset.saturating_add(sub_samples) + gate_samples <= u64::MAX,
    ensures
        emitted(*msg, boundary_offset, block_samples, block_start_abs, sub_samples, gate_samples, cap,
            old(out)@, old(pending)@, final(out)@, final(pending)@),
{
    let on_within = boundary_offset.saturating_add(sub_samples);
    let on_abs = block_start_abs + on_within as u64;
    let off_status = msg.status.wrapping_sub(0x10);
    let gated = (msg.status & 0xF0) == 0x90 && msg.gate_micros > 0;
    if (on_within as u64) < block_samples {
        if out.len() < cap {
            out.push(MidiEvent { sample_offset: on_within, status: msg.status, data1: msg.note, data2: msg.velocity });
        }
        if gated {
            let off_within = on_within as u64 + gate_samples;
            if off_within < block_samples {
                if out.len() < cap {
                    out.push(MidiEvent { sample_offset: off_within as u32, status: off_status, data1: msg.note, data2: 0 });
                }
            } else {
                pending.schedule(block_start_abs + off_within, off_status, msg.note, 0);
            }
        }
    } else {
        let ghost p0 = pending@;
        pending.schedule(on_abs, msg.status, msg.note, msg.velocity);
        let ghost mid = pending@;
        if gated {
            pending.schedule(on_abs + gate_samples, off_status, msg.note, 0);
            assert(scheduled(p0, mid, on_abs, msg.status, msg.note, msg.velocity));
        }
    }
}

/// The CC 123 all-notes-off message on `channel`, at offset 0.
pub open spec fn all_notes_off(channel: u8) -> MidiEvent {
    MidiEvent { sample_offset: 0, status: 0xB0u8 | (channel & 0x0Fu8), data1: 123, data2: 0 }
}

/// The CC 123 all-notes-off event sent at offset 0 when the host stops.
pub fn all_notes_off_event(channel: u8) -> (e: MidiEvent)
    ensures
        e == all_notes_off(channel),
{
    MidiEvent { sample_offset: 0, status: 0xB0 | (channel & 0x0F), data1: 123, data2: 0 }
}

/// A block the host renders stopped. On the first such block after playing,
/// the sequencer sends all-notes-off on the global channel at offset 0 and
/// clears every pending message first (so no deferred note outlives the
/// stop); on later stopped blocks nothing is sent and the queue is left as it
/// is. Afterwards the sequencer counts as not playing.
pub fn stop_block(was_playing: &mut bool, pending: &mut PendingMidiQueue, channel: u8) -> (e: Option<MidiEvent>)
    ensures
        !*final(was_playing),
        *old(was_playing) ==> e == Some(all_notes_off(channel)) && final(pending)@.len() == old(pending)@.len()
            && forall|i: int| 0 <= i < final(pending)@.len() ==> (#[trigger] final(pending)@[i]) == (PendingMidiEvent { active: false, ..old(pending)@[i] }),
        !*old(was_playing) ==> e is None && final(pending)@ == old(pending)@,
{
    if *was_playing {
        *was_playing = false;
        pending.clear();
        Some(all_notes_off_event(channel))
    } else {
        None
    }
}

/// The pattern slot an incoming event selects: a note-on with non-zero
/// velocity selects `(note - 60) % 9`, notes below 60 selecting slot 0.
pub fn note_in_pattern_index(ev: &MidiEvent) -> (r: Option<usize>)
    ensures
        r == (if (ev.status & 0xF0u8) == 0x90u8 && ev.data2 > 0 {
            Some((if ev.data1 < 60 { 0 } else { ev.data1 - 60 }) as usize % crate::models::PATTERN_SLOTS)
        } else {
            None::<usize>
        }),
{
    if (ev.status & 0xF0) == 0x90 && ev.data2 > 0 {
        Some((ev.data1 as usize).saturating_sub(60) % crate::models::PATTERN_SLOTS)
    } else {
        None
    }
}

proof fn lemma_due_events_contains(s: Seq<PendingMidiEvent>, i: int, start: u64, end: u64)
    requires
        0 <= i < s.len(),
        is_due(s[i], start, end),
    ensures
        due_events(s, start, end).contains(due_event(s[i], start)),
    decreases s.len(),
{
    let prev = due_events(s.drop_last(), start, end);
    if i == s.len() - 1 {
        assert(due_events(s, start, end) == prev.push(due_event(s[i], start)));
        assert(due_events(s, start, end)[prev.len() as int] == due_event(s[i], start));
    } else {
        lemma_due_events_contains(s.drop_last(), i, start, end);
        let k = choose|k: int| 0 <= k < prev.len() && prev[k] == due_event(s[i], start);
        if is_due(s.last(), start, end) {
            assert(due_events(s, start, end)[k] == prev[k]);
        }
    }
}

proof fn lemma_due_events_none(s: Seq<PendingMidiEvent>, start: u64, end: u64)
    requires
        forall|i: int| 0 <= i < s.len() ==> !(#[trigger] s[i]).active,
    ensures
        due_events(s, start, end) == Seq::<MidiEvent>::empty(),
    decreases s.len(),
{
    if s.len() > 0 {
        lemma_due_events_none(s.drop_last(), start, end);
    }
}

/// A message scheduled into a queue with a free slot comes out of the drain of
/// the block that contains its time, at its offset within that block.
pub proof fn law_scheduled_then_drained(a: Seq<PendingMidiEvent>, b: Seq<PendingMidiEvent>, abs_sample: u64,
    status: u8, data1: u8, data2: u8, block_start_abs: u64, block_end_abs: u64)
    requires
        first_free(a) is Some,
        scheduled(a, b, abs_sample, status, data1, data2),
        block_start_abs <= abs_sample < block_end_abs,
    ensures
        due_events(b, block_start_abs, block_end_abs).contains(MidiEvent {
            sample_offset: (abs_sample - block_start_abs) as u32,
            status,
            data1,
            data2,
        }),
{
    let i = first_free(a)->Some_0;
    let ev = PendingMidiEvent { abs_sample, status, data1, data2, active: true };
    assert(b[i] == ev);
    lemma_due_events_contains(b, i, block_start_abs, block_end_abs);
}

/// After a clear, no drain gives anything.
pub proof fn law_cleared_drains_nothing(a: Seq<PendingMidiEvent>, block_start_abs: u64, block_end_abs: u64)
    requires
        forall|i: int| 0 <= i < a.len() ==> !(#[trigger] a[i]).active,
    ensures
        due_events(a, block_start_abs, block_end_abs) == Seq::<MidiEvent>::empty(),
{
    lemma_due_events_none(a, block_start_abs, block_end_abs);
}

impl Default for PendingMidiQueue {
    fn default() -> (q: Self)
        ensures
            q@.len() == PENDING_OFF_DEPTH,
            forall|i: int| 0 <= i < PENDING_OFF_DEPTH ==> #[trigger] q@[i] == inactive_slot(),
    {
        PendingMidiQueue::new()
    }
}

} // verus!
