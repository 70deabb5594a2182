//! Clock abstraction, speed-ratio accumulator and the deterministic RNG.

use vstd::prelude::*;

verus! {

/// A source of monotonic microseconds for the real-time loop.
pub trait Clock {
    fn now_micros(&self) -> u64;

    fn sleep_until(&self, _deadline_micros: u64) {
    }

    fn elevate_priority(&self) {
    }
}

/// A clock that only moves when told to (tests and host-driven rendering).
pub struct SteppableClock {
    now: u64,
}

impl View for SteppableClock {
    type V = u64;

    closed spec fn view(&self) -> u64 {
        self.now
    }
}

impl SteppableClock {
    pub fn new() -> (c: Self)
        ensures
            c@ == 0,
    {
        SteppableClock { now: 0 }
    }

    /// Set the current time.
    pub fn advance_to(&mut self, micros: u64)
        ensures
            final(self)@ == micros,
    {
        self.now = micros;
    }
}

impl Default for SteppableClock {
    fn default() -> (c: Self)
        ensures
            c@ == 0,
    {
        SteppableClock::new()
    }
}

impl Clock for SteppableClock {
    fn now_micros(&self) -> (t: u64)
        ensures
            t == self@,
    {
        self.now
    }
}

/// Q16.16 accumulator step: the sum of `acc` and `ratio_q`, wrapped to 32 bits,
/// split into whole steps (high half) and the carried fraction (low half).
pub open spec fn speed_ratio_step(acc: u32, ratio_q: u32) -> (u32, u32) {
    let sum = ((acc + ratio_q) % 0x1_0000_0000) as u32;
    ((sum / 0x1_0000) as u32, (sum % 0x1_0000) as u32)
}

/// Advance a Q16.16 accumulator by `ratio_q`. Returns (whole steps to fire,
/// new accumulator).
pub fn advance_speed_ratio(acc: u32, ratio_q: u32) -> (r: (u32, u32))
    ensures
        r == speed_ratio_step(acc, ratio_q),
        r.1 < 0x1_0000,
        r.0 * 0x1_0000 + r.1 == (acc + ratio_q) % 0x1_0000_0000,
{
    let sum = acc.wrapping_add(ratio_q);
    let steps = sum >> 16;
    let frac = sum & 0xFFFF;
    assert(steps == sum / 0x1_0000 && frac == sum % 0x1_0000) by (bit_vector)
        requires
            steps == sum >> 16,
            frac == sum & 0xFFFF,
    ;
    (steps, frac)
}

/// Whole steps fired over `n` ticks from accumulator `acc` at ratio `ratio_q`,
/// and the accumulator after them.
pub open spec fn fired_over(acc: u32, ratio_q: u32, n: nat) -> (nat, u32)
    decreases n,
{
    if n == 0 {
        (0, acc)
    } else {
        let (t, a) = fired_over(acc, ratio_q, (n - 1) as nat);
        let (k, a2) = speed_ratio_step(a, ratio_q);
        ((t + k) as nat, a2)
    }
}

/// A track at speed ratio `ratio_q` (Q16.16) fires, over `n` ticks from a
/// cleared accumulator, exactly the whole part of `n` times its ratio, and
/// carries the fractional part: half speed fires every other tick, double
/// speed twice a tick.
pub proof fn law_speed_ratio_fires_proportionally(ratio_q: u32, n: nat)
    requires
        ratio_q < 0xFFFF_0000,
    ensures
        fired_over(0, ratio_q, n).0 * 0x1_0000 + fired_over(0, ratio_q, n).1 == n * ratio_q,
        fired_over(0, ratio_q, n).1 < 0x1_0000,
    decreases n,
{
    if n > 0 {
        law_speed_ratio_fires_proportionally(ratio_q, (n - 1) as nat);
        let (t, a) = fired_over(0, ratio_q, (n - 1) as nat);
        assert((n - 1) * ratio_q + ratio_q == n * ratio_q) by (nonlinear_arith);
        assert(a + ratio_q < 0x1_0000_0000);
    }
}

/// Seed used in place of 0, which would pin xorshift at 0 for ever.
pub const RNG_ZERO_SEED: u64 = 0x9E37_79B9_7F4A_7C15;

/// One xorshift64 (13, 7, 17) state transition.
pub open spec fn xorshift64(x: u64) -> u64 {
    let a = x ^ (x << 13u64);
    let b = a ^ (a >> 7u64);
    b ^ (b << 17u64)
}

/// The 32-bit draw that follows state `x`: the high half of the next state.
pub open spec fn draw_after(x: u64) -> u32 {
    (xorshift64(x) >> 32u64) as u32
}

/// Where a draw `d` lands in `lo..=hi` (or at `lo` when the range is empty).
pub open spec fn range_value(lo: int, hi: int, d: u32) -> int {
    let span: int = if hi - lo + 1 >= 1 { hi - lo + 1 } else { 1 };
    lo + (d as int) % span
}

/// xorshift64: deterministic and allocation-free.
pub struct Rng(pub u64);

impl Rng {
    pub fn new(seed: u64) -> (r: Self)
        ensures
            r.0 == (if seed == 0 { RNG_ZERO_SEED } else { seed }),
    {
        Rng(if seed == 0 { RNG_ZERO_SEED } else { seed })
    }

    pub fn next_u32(&mut self) -> (r: u32)
        ensures
            final(self).0 == xorshift64(old(self).0),
            r == draw_after(old(self).0),
    {
        let mut x = self.0;
        x = x ^ (x << 13u64);
        x = x ^ (x >> 7u64);
        x = x ^ (x << 17u64);
        self.0 = x;
        (x >> 32u64) as u32
    }

    /// A draw in `lo..=hi`; `lo` itself when `hi < lo`.
    pub fn range(&mut self, lo: i32, hi: i32) -> (r: i32)
        requires
            i32::MIN <= hi - lo < i32::MAX,
        ensures
            final(self).0 == xorshift64(old(self).0),
            r == range_value(lo as int, hi as int, draw_after(old(self).0)),
            lo <= hi ==> lo <= r <= hi,
            hi < lo ==> r == lo,
    {
        let width = hi - lo + 1;
        let span: u32 = if width >= 1 { width as u32 } else { 1 };
        let d = self.next_u32();
        let k = d % span;
        lo + k as i32
    }
}

} // verus!
