//! The stand-in for an Ableton Link session on platforms without Link: no
//! peers, and a clock that stays at zero.

use vstd::prelude::*;

verus! {

/// A Link session that never finds peers.
pub struct Link;

/// The session state captured from a [`Link`].
pub struct DummySessionState;

/// The clock of a [`Link`].
pub struct DummyClock;

impl Link {
    /// A session at the tempo whose `f64` bits are `bpm_bits`.
    pub fn new(bpm_bits: u64) -> (l: Self) {
        let _ = bpm_bits;
        Link
    }

    pub fn capture_app_session_state(&self) -> (s: DummySessionState) {
        DummySessionState
    }

    pub fn clock(&self) -> (c: DummyClock) {
        DummyClock
    }

    /// Always 0.
    pub fn num_peers(&self) -> (n: usize)
        ensures
            n == 0,
    {
        0
    }
}

impl DummyClock {
    /// Always 0 µs.
    pub fn micros(&self) -> (t: u64)
        ensures
            t == 0,
    {
        0
    }
}

} // verus!
