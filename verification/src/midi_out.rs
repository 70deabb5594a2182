//! The bounded MIDI ring between the tick and the MIDI output worker, with its
//! drop-oldest overflow policy, and the fixed-size hot-event slot.

use vstd::prelude::*;
use heapless::mpmc::MpMcQueue;

verus! {

pub const MIDI_RING_DEPTH: usize = 128;
pub const HOT_EVENT_DEPTH: usize = 32;
pub const COMMAND_DEPTH: usize = 64;
pub const MAX_EVENT_BYTES: usize = 128;
/// Depth of the channel for payloads too large for a hot slot.
pub const LARGE_EVENT_DEPTH: usize = 8;

/// One MIDI message with its send offset (µs after the tick) and gate length.
#[derive(Clone, Copy, Debug, PartialEq, Eq, Structural)]
pub struct MidiMsg {
    pub endpoint: u32,
    pub channel: u8,
    pub status: u8,
    pub note: u8,
    pub velocity: u8,
    pub send_at_offset_micros: u32,
    pub gate_micros: u32,
}

/// An encoded small event: `len` meaningful bytes of `bytes`.
#[derive(Clone, Copy, Debug, PartialEq, Eq)]
pub struct HotEventSlot {
    pub len: u8,
    pub bytes: [u8; 128],
}

#[verifier::external_type_specification]
#[verifier::external_body]
#[verifier::reject_recursive_types(T)]
pub struct ExMpMcQueue<T, const N: usize>(MpMcQueue<T, N>);

/// The MIDI ring: a bounded FIFO of `MIDI_RING_DEPTH` messages.
pub type MidiOutRing = MpMcQueue<MidiMsg, 128>;

/// The messages held by a MIDI ring, oldest first.
pub uninterp spec fn midi_ring_contents(q: MpMcQueue<MidiMsg, 128>) -> Seq<MidiMsg>;

/// `heapless::mpmc::MpMcQueue::new`: an empty queue.
#[verifier::external_body]
fn mpmc_new() -> (q: MidiOutRing)
    ensures
        midi_ring_contents(q) == Seq::<MidiMsg>::empty(),
{
    MpMcQueue::new()
}

/// `heapless::mpmc::MpMcQueue::enqueue`, used by one thread at a time: appends
/// the item when fewer than 128 are held, else hands it back and leaves the
/// queue as it was.
#[verifier::external_body]
fn mpmc_enqueue(q: &mut MidiOutRing, m: MidiMsg) -> (r: Result<(), MidiMsg>)
    ensures
        r is Ok <==> midi_ring_contents(*old(q)).len() < 128,
        r matches Err(back) ==> back == m,
        r is Ok ==> midi_ring_contents(*final(q)) == midi_ring_contents(*old(q)).push(m),
        r is Err ==> midi_ring_contents(*final(q)) == midi_ring_contents(*old(q)),
{
    q.enqueue(m)
}

/// `heapless::mpmc::MpMcQueue::dequeue`, used by one thread at a time: removes
/// and returns the oldest item, or `None` when empty.
#[verifier::external_body]
fn mpmc_dequeue(q: &mut MidiOutRing) -> (r: Option<MidiMsg>)
    ensures
        r is Some <==> midi_ring_contents(*old(q)).len() > 0,
        r matches Some(m) ==> m == midi_ring_contents(*old(q))[0]
            && midi_ring_contents(*final(q)) == midi_ring_contents(*old(q)).drop_first(),
        r is None ==> midi_ring_contents(*final(q)) == midi_ring_contents(*old(q)),
{
    q.dequeue()
}

/// An empty MIDI ring.
pub fn midi_out_ring() -> (q: MidiOutRing)
    ensures
        midi_ring_contents(q).len() == 0,
{
    mpmc_new()
}

/// Take the oldest message off the ring.
pub fn ring_dequeue(q: &mut MidiOutRing) -> (r: Option<MidiMsg>)
    ensures
        r is Some <==> midi_ring_contents(*old(q)).len() > 0,
        r matches Some(m) ==> m == midi_ring_contents(*old(q))[0]
            && midi_ring_contents(*final(q)) == midi_ring_contents(*old(q)).drop_first(),
        r is None ==> midi_ring_contents(*final(q)) == midi_ring_contents(*old(q)),
{
    mpmc_dequeue(q)
}

/// How many messages a push onto a ring holding `len` of them drops.
pub open spec fn overflow_drops(len: nat) -> nat {
    if len < MIDI_RING_DEPTH {
        0
    } else {
        (len + 1 - MIDI_RING_DEPTH) as nat
    }
}

/// The ring after a drop-oldest push of `m` onto `c`: `m` appended, and the
/// oldest messages dropped until at most 128 remain.
pub open spec fn pushed_drop_oldest(c: Seq<MidiMsg>, m: MidiMsg) -> Seq<MidiMsg> {
    c.skip(overflow_drops(c.len()) as int).push(m)
}

/// Enqueue, dropping the oldest message when the ring is full. Returns the
/// number of messages dropped. (A ring never holds more than its 128 cells.)
pub fn push_drop_oldest(q: &mut MidiOutRing, val: MidiMsg) -> (dropped: usize)
    requires
        midi_ring_contents(*old(q)).len() <= MIDI_RING_DEPTH,
    ensures
        dropped == overflow_drops(midi_ring_contents(*old(q)).len()),
        midi_ring_contents(*final(q)) == pushed_drop_oldest(midi_ring_contents(*old(q)), val),
        midi_ring_contents(*final(q)).len() <= MIDI_RING_DEPTH,
        dropped <= 1,
{
    let ghost c0 = midi_ring_contents(*q);
    let mut dropped: usize = 0;
    loop
        invariant
            c0 == midi_ring_contents(*old(q)),
            c0.len() <= MIDI_RING_DEPTH,
            dropped <= c0.len(),
            dropped <= 1,
            midi_ring_contents(*q) == c0.skip(dropped as int),
            midi_ring_contents(*q).len() == c0.len() - dropped,
            dropped <= overflow_drops(c0.len()),
        decreases c0.len() - dropped,
    {
        match mpmc_enqueue(q, val) {
            Ok(()) => {
                assert(c0.skip(dropped as int).len() < 128);
                return dropped;
            },
            Err(_) => {
                let _ = mpmc_dequeue(q);
                assert(c0.skip(dropped as int).drop_first() =~= c0.skip(dropped + 1));
                dropped = dropped + 1;
            },
        }
    }
}

/// The ring after drop-oldest pushes of `ms`, in order, onto contents `c`.
pub open spec fn pushed_all(c: Seq<MidiMsg>, ms: Seq<MidiMsg>) -> Seq<MidiMsg>
    decreases ms.len(),
{
    if ms.len() == 0 {
        c
    } else {
        pushed_drop_oldest(pushed_all(c, ms.drop_last()), ms.last())
    }
}

/// How many of `n` messages a 128-cell ring cannot keep.
pub open spec fn excess(n: nat) -> nat {
    if n <= MIDI_RING_DEPTH { 0 } else { (n - MIDI_RING_DEPTH) as nat }
}

/// Drop-oldest keeps the newest: after pushing `ms` in order onto a ring
/// holding `c`, the ring holds the last (at most 128) messages of `c`
/// followed by `ms`, oldest first.
pub proof fn law_ring_keeps_newest(c: Seq<MidiMsg>, ms: Seq<MidiMsg>)
    requires
        c.len() <= MIDI_RING_DEPTH,
    ensures
        pushed_all(c, ms) == (c + ms).skip(excess(c.len() + ms.len()) as int),
    decreases ms.len(),
{
    if ms.len() > 0 {
        let prev = ms.drop_last();
        law_ring_keeps_newest(c, prev);
        let x = pushed_all(c, prev);
        let n = c.len() + ms.len();
        assert(c + ms =~= (c + prev).push(ms.last()));
        if n - 1 < MIDI_RING_DEPTH {
            assert(x =~= c + prev);
            assert(x.skip(0) =~= x);
        } else {
            let d: int = excess((n - 1) as nat) as int;
            assert(x.skip(1) =~= (c + prev).skip(d + 1));
            assert((c + prev).skip(d + 1).push(ms.last()) =~= (c + ms).skip(d + 1));
        }
    }
}

} // verus!
