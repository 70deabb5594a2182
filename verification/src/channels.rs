//! The bounded channels between the shell, the state worker and the tick:
//! commands in, small encoded events and large events out. Each is a
//! heapless MPMC queue with the drop-oldest policy: a push onto a full queue
//! drops the oldest entry first and reports how many it dropped, and a
//! command push that dropped something is answered by an `Overflow` event.

use vstd::prelude::*;
use heapless::mpmc::MpMcQueue;
use crate::command::Command;
use crate::event::EngineEvent;
use crate::midi_out::{HotEventSlot, COMMAND_DEPTH, HOT_EVENT_DEPTH, LARGE_EVENT_DEPTH};

verus! {

/// Commands from the shell to the state worker.
pub type CommandQueue = MpMcQueue<Command, 64>;
/// Encoded small events from the engine to the shell.
pub type HotEventChannel = MpMcQueue<HotEventSlot, 32>;
/// Events too large for a hot slot.
pub type LargeEventChannel = MpMcQueue<EngineEvent, 8>;

/// How many entries a push drops from a queue of `depth` cells holding `len`.
pub open spec fn drops_at(len: nat, depth: nat) -> nat {
    if len < depth {
        0
    } else {
        (len + 1 - depth) as nat
    }
}

/// A queue of `depth` cells holding `c` after a drop-oldest push of `v`: the
/// oldest entries dropped until there is room, `v` appended.
pub open spec fn pushed_at<T>(c: Seq<T>, v: T, depth: nat) -> Seq<T> {
    c.skip(drops_at(c.len(), depth) as int).push(v)
}

/// The `Overflow` event a push that dropped `dropped` entries is answered
/// with: none when nothing was dropped.
pub fn overflow_event(dropped: usize) -> (e: Option<EngineEvent>)
    ensures
        e == (if dropped == 0 { None } else { Some(EngineEvent::Overflow { dropped: dropped as u32 }) }),
{
    if dropped == 0 {
        None
    } else {
        Some(EngineEvent::Overflow { dropped: dropped as u32 })
    }
}

/// The commands a command queue holds, oldest first.
pub uninterp spec fn command_queue_contents(q: MpMcQueue<Command, 64>) -> Seq<Command>;

/// `heapless::mpmc::MpMcQueue::new`: an empty queue.
#[verifier::external_body]
fn command_queue_contents_new() -> (q: CommandQueue)
    ensures
        command_queue_contents(q) == Seq::<Command>::empty(),
{
    MpMcQueue::new()
}

/// `heapless::mpmc::MpMcQueue::enqueue`, used by one owner at a time: appends
/// the item when fewer than 64 are held, else hands it back and leaves the
/// queue as it was.
#[verifier::external_body]
fn command_queue_contents_enqueue(q: &mut CommandQueue, v: Command) -> (r: Result<(), Command>)
    ensures
        r is Ok <==> command_queue_contents(*old(q)).len() < 64,
        r matches Err(back) ==> back == v,
        r is Ok ==> command_queue_contents(*final(q)) == command_queue_contents(*old(q)).push(v),
        r is Err ==> command_queue_contents(*final(q)) == command_queue_contents(*old(q)),
{
    q.enqueue(v)
}

/// `heapless::mpmc::MpMcQueue::dequeue`, used by one owner at a time: removes
/// and returns the oldest item, or `None` when empty.
#[verifier::external_body]
fn command_queue_contents_dequeue(q: &mut CommandQueue) -> (r: Option<Command>)
    ensures
        r is Some <==> command_queue_contents(*old(q)).len() > 0,
        r matches Some(v) ==> v == command_queue_contents(*old(q))[0]
            && command_queue_contents(*final(q)) == command_queue_contents(*old(q)).drop_first(),
        r is None ==> command_queue_contents(*final(q)) == command_queue_contents(*old(q)),
{
    q.dequeue()
}

/// An empty command queue.
pub fn command_queue() -> (q: CommandQueue)
    ensures
        command_queue_contents(q).len() == 0,
{
    command_queue_contents_new()
}

/// Take the oldest entry off the command queue.
pub fn command_dequeue(q: &mut CommandQueue) -> (r: Option<Command>)
    ensures
        r is Some <==> command_queue_contents(*old(q)).len() > 0,
        r matches Some(v) ==> v == command_queue_contents(*old(q))[0]
            && command_queue_contents(*final(q)) == command_queue_contents(*old(q)).drop_first(),
        r is None ==> command_queue_contents(*final(q)) == command_queue_contents(*old(q)),
{
    command_queue_contents_dequeue(q)
}

/// Enqueue a command, dropping the oldest entry when the command queue is full. Returns the
/// number dropped. (A queue never holds more than its 64 cells.)
pub fn push_command(q: &mut CommandQueue, val: Command) -> (dropped: usize)
    requires
        command_queue_contents(*old(q)).len() <= 64,
    ensures
        dropped == drops_at(command_queue_contents(*old(q)).len(), 64),
        command_queue_contents(*final(q)) == pushed_at(command_queue_contents(*old(q)), val, 64),
        command_queue_contents(*final(q)).len() <= 64,
        dropped <= 1,
{
    let ghost c0 = command_queue_contents(*q);
    let ghost v0 = val;
    let mut v = val;
    let mut dropped: usize = 0;
    loop
        invariant
            c0 == command_queue_contents(*old(q)),
            c0.len() <= 64,
            v == v0,
            v0 == val,
            dropped <= c0.len(),
            dropped <= 1,
            command_queue_contents(*q) == c0.skip(dropped as int),
            command_queue_contents(*q).len() == c0.len() - dropped,
            dropped <= drops_at(c0.len(), 64),
            dropped > 0 ==> c0.len() >= 64,
        decreases c0.len() - dropped,
    {
        match command_queue_contents_enqueue(q, v) {
            Ok(()) => {
                assert(c0.skip(dropped as int).len() < 64);
                return dropped;
            },
            Err(back) => {
                v = back;
                let _ = command_queue_contents_dequeue(q);
                assert(c0.skip(dropped as int).drop_first() =~= c0.skip(dropped + 1));
                dropped = dropped + 1;
            },
        }
    }
}

/// The encoded events a hot event channel holds, oldest first.
pub uninterp spec fn hot_channel_contents(q: MpMcQueue<HotEventSlot, 32>) -> Seq<HotEventSlot>;

/// `heapless::mpmc::MpMcQueue::new`: an empty queue.
#[verifier::external_body]
fn hot_channel_contents_new() -> (q: HotEventChannel)
    ensures
        hot_channel_contents(q) == Seq::<HotEventSlot>::empty(),
{
    MpMcQueue::new()
}

/// `heapless::mpmc::MpMcQueue::enqueue`, used by one owner at a time: appends
/// the item when fewer than 32 are held, else hands it back and leaves the
/// queue as it was.
#[verifier::external_body]
fn hot_channel_contents_enqueue(q: &mut HotEventChannel, v: HotEventSlot) -> (r: Result<(), HotEventSlot>)
    ensures
        r is Ok <==> hot_channel_contents(*old(q)).len() < 32,
        r matches Err(back) ==> back == v,
        r is Ok ==> hot_channel_contents(*final(q)) == hot_channel_contents(*old(q)).push(v),
        r is Err ==> hot_channel_contents(*final(q)) == hot_channel_contents(*old(q)),
{
    q.enqueue(v)
}

/// `heapless::mpmc::MpMcQueue::dequeue`, used by one owner at a time: removes
/// and returns the oldest item, or `None` when empty.
#[verifier::external_body]
fn hot_channel_contents_dequeue(q: &mut HotEventChannel) -> (r: Option<HotEventSlot>)
    ensures
        r is Some <==> hot_channel_contents(*old(q)).len() > 0,
        r matches Some(v) ==> v == hot_channel_contents(*old(q))[0]
            && hot_channel_contents(*final(q)) == hot_channel_contents(*old(q)).drop_first(),
        r is None ==> hot_channel_contents(*final(q)) == hot_channel_contents(*old(q)),
{
    q.dequeue()
}

/// An empty hot event channel.
pub fn hot_event_channel() -> (q: HotEventChannel)
    ensures
        hot_channel_contents(q).len() == 0,
{
    hot_channel_contents_new()
}

/// Take the oldest entry off the hot event channel.
pub fn hot_dequeue(q: &mut HotEventChannel) -> (r: Option<HotEventSlot>)
    ensures
        r is Some <==> hot_channel_contents(*old(q)).len() > 0,
        r matches Some(v) ==> v == hot_channel_contents(*old(q))[0]
            && hot_channel_contents(*final(q)) == hot_channel_contents(*old(q)).drop_first(),
        r is None ==> hot_channel_contents(*final(q)) == hot_channel_contents(*old(q)),
{
    hot_channel_contents_dequeue(q)
}

/// Enqueue an encoded event, dropping the oldest entry when the hot event channel is full. Returns the
/// number dropped. (A queue never holds more than its 32 cells.)
pub fn push_hot_slot(q: &mut HotEventChannel, val: HotEventSlot) -> (dropped: usize)
    requires
        hot_channel_contents(*old(q)).len() <= 32,
    ensures
        dropped == drops_at(hot_channel_contents(*old(q)).len(), 32),
        hot_channel_contents(*final(q)) == pushed_at(hot_channel_contents(*old(q)), val, 32),
        hot_channel_contents(*final(q)).len() <= 32,
        dropped <= 1,
{
    let ghost c0 = hot_channel_contents(*q);
    let ghost v0 = val;
    let mut v = val;
    let mut dropped: usize = 0;
    loop
        invariant
            c0 == hot_channel_contents(*old(q)),
            c0.len() <= 32,
            v == v0,
            v0 == val,
            dropped <= c0.len(),
            dropped <= 1,
            hot_channel_contents(*q) == c0.skip(dropped as int),
            hot_channel_contents(*q).len() == c0.len() - dropped,
            dropped <= drops_at(c0.len(), 32),
            dropped > 0 ==> c0.len() >= 32,
        decreases c0.len() - dropped,
    {
        match hot_channel_contents_enqueue(q, v) {
            Ok(()) => {
                assert(c0.skip(dropped as int).len() < 32);
                return dropped;
            },
            Err(back) => {
                v = back;
                let _ = hot_channel_contents_dequeue(q);
                assert(c0.skip(dropped as int).drop_first() =~= c0.skip(dropped + 1));
                dropped = dropped + 1;
            },
        }
    }
}

/// The events a large event channel holds, oldest first.
pub uninterp spec fn large_channel_contents(q: MpMcQueue<EngineEvent, 8>) -> Seq<EngineEvent>;

/// `heapless::mpmc::MpMcQueue::new`: an empty queue.
#[verifier::external_body]
fn large_channel_contents_new() -> (q: LargeEventChannel)
    ensures
        large_channel_contents(q) == Seq::<EngineEvent>::empty(),
{
    MpMcQueue::new()
}

/// `heapless::mpmc::MpMcQueue::enqueue`, used by one owner at a time: appends
/// the item when fewer than 8 are held, else hands it back and leaves the
/// queue as it was.
#[verifier::external_body]
fn large_channel_contents_enqueue(q: &mut LargeEventChannel, v: EngineEvent) -> (r: Result<(), EngineEvent>)
    ensures
        r is Ok <==> large_channel_contents(*old(q)).len() < 8,
        r matches Err(back) ==> back == v,
        r is Ok ==> large_channel_contents(*final(q)) == large_channel_contents(*old(q)).push(v),
        r is Err ==> large_channel_contents(*final(q)) == large_channel_contents(*old(q)),
{
    q.enqueue(v)
}

/// `heapless::mpmc::MpMcQueue::dequeue`, used by one owner at a time: removes
/// and returns the oldest item, or `None` when empty.
#[verifier::external_body]
fn large_channel_contents_dequeue(q: &mut LargeEventChannel) -> (r: Option<EngineEvent>)
    ensures
        r is Some <==> large_channel_contents(*old(q)).len() > 0,
        r matches Some(v) ==> v == large_channel_contents(*old(q))[0]
            && large_channel_contents(*final(q)) == large_channel_contents(*old(q)).drop_first(),
        r is None ==> large_channel_contents(*final(q)) == large_channel_contents(*old(q)),
{
    q.dequeue()
}

/// An empty large event channel.
pub fn large_event_channel() -> (q: LargeEventChannel)
    ensures
        large_channel_contents(q).len() == 0,
{
    large_channel_contents_new()
}

/// Take the oldest entry off the large event channel.
pub fn large_dequeue(q: &mut LargeEventChannel) -> (r: Option<EngineEvent>)
    ensures
        r is Some <==> large_channel_contents(*old(q)).len() > 0,
        r matches Some(v) ==> v == large_channel_contents(*old(q))[0]
            && large_channel_contents(*final(q)) == large_channel_contents(*old(q)).drop_first(),
        r is None ==> large_channel_contents(*final(q)) == large_channel_contents(*old(q)),
{
    large_channel_contents_dequeue(q)
}

/// Enqueue a large event, dropping the oldest entry when the large event channel is full. Returns the
/// number dropped. (A queue never holds more than its 8 cells.)
pub fn push_large_event(q: &mut LargeEventChannel, val: EngineEvent) -> (dropped: usize)
    requires
        large_channel_contents(*old(q)).len() <= 8,
    ensures
        dropped == drops_at(large_channel_contents(*old(q)).len(), 8),
        large_channel_contents(*final(q)) == pushed_at(large_channel_contents(*old(q)), val, 8),
        large_channel_contents(*final(q)).len() <= 8,
        dropped <= 1,
{
    let ghost c0 = large_channel_contents(*q);
    let ghost v0 = val;
    let mut v = val;
    let mut dropped: usize = 0;
    loop
        invariant
            c0 == large_channel_contents(*old(q)),
            c0.len() <= 8,
            v == v0,
            v0 == val,
            dropped <= c0.len(),
            dropped <= 1,
            large_channel_contents(*q) == c0.skip(dropped as int),
            large_channel_contents(*q).len() == c0.len() - dropped,
            dropped <= drops_at(c0.len(), 8),
            dropped > 0 ==> c0.len() >= 8,
        decreases c0.len() - dropped,
    {
        match large_channel_contents_enqueue(q, v) {
            Ok(()) => {
                assert(c0.skip(dropped as int).len() < 8);
                return dropped;
            },
            Err(back) => {
                v = back;
                let _ = large_channel_contents_dequeue(q);
                assert(c0.skip(dropped as int).drop_first() =~= c0.skip(dropped + 1));
                dropped = dropped + 1;
            },
        }
    }
}

} // verus!
