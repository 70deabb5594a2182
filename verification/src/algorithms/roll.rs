//! Roll: give every active step a random micro-timing offset. Preserves
//! activity, zones, ratchets, length, midi note and speed ratio.

use vstd::prelude::*;
use crate::algorithms::strength::Strength;
use crate::clock::{Rng, xorshift64, draw_after, range_value};
use crate::models::{Step, Track};

verus! {

/// Roll over steps `i..16` starting from RNG state `x`: each active step gets
/// the offset of one draw in `-50..=50`. Returns the steps and the final state.
pub open spec fn roll_from(steps: Seq<Step>, i: nat, x: u64, st: Strength) -> (Seq<Step>, u64)
    decreases 16 - i,
{
    if i >= 16 || i >= steps.len() {
        (steps, x)
    } else if steps[i as int].active {
        let r = range_value(-50, 50, draw_after(x));
        roll_from(
            steps.update(i as int, Step { micro_timing_offset: st.offset_for(r), ..steps[i as int] }),
            i + 1,
            xorshift64(x),
            st,
        )
    } else {
        roll_from(steps, i + 1, x, st)
    }
}

/// Roll changes nothing but the offsets of active steps.
pub proof fn lemma_roll_from_frame(steps: Seq<Step>, i: nat, x: u64, st: Strength)
    ensures
        roll_from(steps, i, x, st).0.len() == steps.len(),
        forall|k: int| 0 <= k < steps.len() ==> {
            let s2 = #[trigger] roll_from(steps, i, x, st).0[k];
            &&& s2.active == steps[k].active
            &&& s2.velocity_zone == steps[k].velocity_zone
            &&& s2.ratchet == steps[k].ratchet
            &&& (!steps[k].active || k < i) ==> s2 == steps[k]
        },
    decreases 16 - i,
{
    if i >= 16 || i >= steps.len() {
    } else if steps[i as int].active {
        let r = range_value(-50, 50, draw_after(x));
        lemma_roll_from_frame(
            steps.update(i as int, Step { micro_timing_offset: st.offset_for(r), ..steps[i as int] }),
            i + 1,
            xorshift64(x),
            st,
        );
    } else {
        lemma_roll_from_frame(steps, i + 1, x, st);
    }
}

/// The generator state after `n` draws from state `x`.
pub open spec fn advanced(x: u64, n: nat) -> u64
    decreases n,
{
    if n == 0 {
        x
    } else {
        xorshift64(advanced(x, (n - 1) as nat))
    }
}

/// How many of the steps `i..k` are active.
pub open spec fn active_between(steps: Seq<Step>, i: int, k: int) -> nat
    decreases k - i,
{
    if i >= k {
        0
    } else {
        (if steps[i].active { 1nat } else { 0nat }) + active_between(steps, i + 1, k)
    }
}

/// The last step index Roll reaches: 16, or the end of a shorter sequence.
pub open spec fn roll_end(steps: Seq<Step>) -> int {
    if steps.len() < 16 { steps.len() as int } else { 16 }
}

proof fn lemma_advanced_first(x: u64, n: nat)
    ensures
        advanced(xorshift64(x), n) == advanced(x, n + 1),
    decreases n,
{
    if n > 0 {
        lemma_advanced_first(x, (n - 1) as nat);
        assert(advanced(x, n + 1) == xorshift64(advanced(x, n)));
    } else {
        assert(advanced(x, 1) == xorshift64(advanced(x, 0)));
    }
}

proof fn lemma_active_between_same(a: Seq<Step>, b: Seq<Step>, i: int, k: int)
    requires
        forall|j: int| i <= j < k ==> (#[trigger] a[j]).active == b[j].active,
    ensures
        active_between(a, i, k) == active_between(b, i, k),
    decreases k - i,
{
    if i < k {
        lemma_active_between_same(a, b, i + 1, k);
    }
}

/// Roll draws once per active step, in step order: rolling steps `i..` with
/// `k` active steps among them advances the generator exactly `k` times, and
/// the offset an active step gets is that of the draw after as many draws as
/// there are active steps before it (each active step its own, successive
/// draw).
pub proof fn law_roll_draws_once_per_active_step(steps: Seq<Step>, i: nat, x: u64, st: Strength)
    requires
        i <= roll_end(steps),
    ensures
        roll_from(steps, i, x, st).1 == advanced(x, active_between(steps, i as int, roll_end(steps))),
        forall|k: int| i <= k < roll_end(steps) && steps[k].active ==>
            (#[trigger] roll_from(steps, i, x, st).0[k]).micro_timing_offset
                == st.offset_for(range_value(-50, 50, draw_after(advanced(x, active_between(steps, i as int, k))))),
    decreases 16 - i,
{
    let end = roll_end(steps);
    if i >= 16 || i >= steps.len() {
    } else if steps[i as int].active {
        let r = range_value(-50, 50, draw_after(x));
        let s1 = steps.update(i as int, Step { micro_timing_offset: st.offset_for(r), ..steps[i as int] });
        law_roll_draws_once_per_active_step(s1, i + 1, xorshift64(x), st);
        lemma_roll_from_frame(s1, i + 1, xorshift64(x), st);
        assert(roll_end(s1) == end);
        lemma_active_between_same(s1, steps, (i + 1) as int, end);
        lemma_advanced_first(x, active_between(steps, (i + 1) as int, end));
        assert forall|k: int| i <= k < end && steps[k].active implies
            (#[trigger] roll_from(steps, i, x, st).0[k]).micro_timing_offset
                == st.offset_for(range_value(-50, 50, draw_after(advanced(x, active_between(steps, i as int, k))))) by {
            if k == i {
                assert(roll_from(s1, i + 1, xorshift64(x), st).0[k] == s1[k]);
            } else {
                lemma_active_between_same(s1, steps, (i + 1) as int, k);
                lemma_advanced_first(x, active_between(steps, (i + 1) as int, k));
            }
        }
    } else {
        law_roll_draws_once_per_active_step(steps, i + 1, x, st);
    }
}

/// Roll `track` with strength `st`, drawing from `rng`.
pub fn roll(track: &mut Track, st: &Strength, rng: &mut Rng)
    requires
        st.wf(),
    ensures
        final(track).steps@ == roll_from(old(track).steps@, 0, old(rng).0, *st).0,
        final(rng).0 == roll_from(old(track).steps@, 0, old(rng).0, *st).1,
        *final(track) == (Track { steps: final(track).steps, ..*old(track) }),
        final(track).length == old(track).length,
        final(track).midi_note == old(track).midi_note,
        final(track).speed_ratio == old(track).speed_ratio,
        forall|k: int| 0 <= k < 16 ==> {
            let s2 = #[trigger] final(track).steps@[k];
            &&& s2.active == old(track).steps@[k].active
            &&& s2.velocity_zone == old(track).steps@[k].velocity_zone
            &&& s2.ratchet == old(track).steps@[k].ratchet
            &&& !old(track).steps@[k].active ==> s2 == old(track).steps@[k]
        },
        final(rng).0 == advanced(old(rng).0, active_between(old(track).steps@, 0, 16)),
        forall|k: int| 0 <= k < 16 && old(track).steps@[k].active ==>
            (#[trigger] final(track).steps@[k]).micro_timing_offset
                == st.offset_for(range_value(-50, 50, draw_after(advanced(old(rng).0, active_between(old(track).steps@, 0, k))))),
{
    proof {
        lemma_roll_from_frame(track.steps@, 0, rng.0, *st);
        law_roll_draws_once_per_active_step(track.steps@, 0, rng.0, *st);
    }
    let mut i: usize = 0;
    while i < 16
        invariant
            i <= 16,
            st.wf(),
            track.steps@.len() == 16,
            roll_from(track.steps@, i as nat, rng.0, *st) == roll_from(old(track).steps@, 0, old(rng).0, *st),
            *track == (Track { steps: track.steps, ..*old(track) }),
        decreases 16 - i,
    {
        let step = track.steps[i];
        if step.active {
            let r = rng.range(-50, 50);
            let off = st.offset_bits[(r + 50) as usize];
            track.steps[i] = Step { micro_timing_offset: off, ..step };
        }
        i = i + 1;
    }
}

} // verus!
