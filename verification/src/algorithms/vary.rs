//! Vary: perturb the non-accent steps and leave accents locked. Falls back to
//! Roll when the track has no accent. Preserves length, midi note and speed
//! ratio.

use vstd::prelude::*;
use crate::algorithms::roll::{roll, roll_from};
use crate::algorithms::strength::Strength;
use crate::clock::{Rng, xorshift64, draw_after, range_value};
use crate::models::{Step, Track, VelocityZone};

verus! {

/// An active step in the Accent zone.
pub open spec fn is_accent(s: Step) -> bool {
    s.active && s.velocity_zone == VelocityZone::Accent
}

pub open spec fn has_accent(steps: Seq<Step>) -> bool {
    exists|k: int| 0 <= k < steps.len() && is_accent(#[trigger] steps[k])
}

/// Vary over steps `i..16` from RNG state `x`. For each non-accent step: one
/// draw in `0..=100` toggles it when below the toggle threshold; if it is then
/// active, one draw in `-50..=50` sets its offset, and one draw in `0..=100`
/// below the zone threshold re-zones it by a draw in `0..=2` (0 → Low, else
/// Mid). Accent steps take no draw.
pub open spec fn vary_from(steps: Seq<Step>, i: nat, x: u64, st: Strength) -> (Seq<Step>, u64)
    decreases 16 - i,
{
    if i >= 16 || i >= steps.len() {
        (steps, x)
    } else {
        let s = steps[i as int];
        if is_accent(s) {
            vary_from(steps, i + 1, x, st)
        } else {
            let x1 = xorshift64(x);
            let act = if range_value(0, 100, draw_after(x)) < st.toggle_threshold { !s.active } else { s.active };
            let s1 = Step { active: act, ..s };
            if act {
                let x2 = xorshift64(x1);
                let s2 = Step { micro_timing_offset: st.offset_for(range_value(-50, 50, draw_after(x1))), ..s1 };
                let x3 = xorshift64(x2);
                if range_value(0, 100, draw_after(x2)) < st.zone_threshold {
                    let x4 = xorshift64(x3);
                    let z = if range_value(0, 2, draw_after(x3)) == 0 { VelocityZone::Low } else { VelocityZone::Mid };
                    vary_from(steps.update(i as int, Step { velocity_zone: z, ..s2 }), i + 1, x4, st)
                } else {
                    vary_from(steps.update(i as int, s2), i + 1, x3, st)
                }
            } else {
                vary_from(steps.update(i as int, s1), i + 1, x1, st)
            }
        }
    }
}

/// Vary leaves accent steps (and the steps before `i`) as they were, and never
/// changes a step's ratchet.
pub proof fn lemma_vary_from_frame(steps: Seq<Step>, i: nat, x: u64, st: Strength)
    ensures
        vary_from(steps, i, x, st).0.len() == steps.len(),
        forall|k: int| 0 <= k < steps.len() ==> {
            let s2 = #[trigger] vary_from(steps, i, x, st).0[k];
            &&& s2.ratchet == steps[k].ratchet
            &&& (is_accent(steps[k]) || k < i) ==> s2 == steps[k]
        },
    decreases 16 - i,
{
    if i >= 16 || i >= steps.len() {
    } else {
        let s = steps[i as int];
        if is_accent(s) {
            lemma_vary_from_frame(steps, i + 1, x, st);
        } else {
            let x1 = xorshift64(x);
            let act = if range_value(0, 100, draw_after(x)) < st.toggle_threshold { !s.active } else { s.active };
            let s1 = Step { active: act, ..s };
            if act {
                let x2 = xorshift64(x1);
                let s2 = Step { micro_timing_offset: st.offset_for(range_value(-50, 50, draw_after(x1))), ..s1 };
                let x3 = xorshift64(x2);
                if range_value(0, 100, draw_after(x2)) < st.zone_threshold {
                    let x4 = xorshift64(x3);
                    let z = if range_value(0, 2, draw_after(x3)) == 0 { VelocityZone::Low } else { VelocityZone::Mid };
                    lemma_vary_from_frame(steps.update(i as int, Step { velocity_zone: z, ..s2 }), i + 1, x4, st);
                } else {
                    lemma_vary_from_frame(steps.update(i as int, s2), i + 1, x3, st);
                }
            } else {
                lemma_vary_from_frame(steps.update(i as int, s1), i + 1, x1, st);
            }
        }
    }
}

proof fn lemma_percent_draw_bounds(d: u32)
    ensures
        0 <= range_value(0, 100, d) <= 100,
{
}

/// Vary toggles a non-accent step only when that step's draw in `0..=100` is
/// below the toggle threshold: with a threshold of 0 or less (strength 0) no
/// step changes its active flag, and with a threshold above 100 every
/// non-accent step Vary reaches (`i..16`) changes it.
pub proof fn law_vary_toggle_threshold(steps: Seq<Step>, i: nat, x: u64, st: Strength)
    ensures
        st.toggle_threshold <= 0 ==> forall|k: int| 0 <= k < steps.len() ==>
            (#[trigger] vary_from(steps, i, x, st).0[k]).active == steps[k].active,
        st.toggle_threshold > 100 ==> forall|k: int| i <= k < 16 && k < steps.len() && !is_accent(steps[k]) ==>
            (#[trigger] vary_from(steps, i, x, st).0[k]).active == !steps[k].active,
    decreases 16 - i,
{
    lemma_vary_from_frame(steps, i, x, st);
    if i >= 16 || i >= steps.len() {
    } else {
        let s = steps[i as int];
        if is_accent(s) {
            law_vary_toggle_threshold(steps, i + 1, x, st);
        } else {
            lemma_percent_draw_bounds(draw_after(x));
            let x1 = xorshift64(x);
            let act = if range_value(0, 100, draw_after(x)) < st.toggle_threshold { !s.active } else { s.active };
            let s1 = Step { active: act, ..s };
            if act {
                let x2 = xorshift64(x1);
                let s2 = Step { micro_timing_offset: st.offset_for(range_value(-50, 50, draw_after(x1))), ..s1 };
                let x3 = xorshift64(x2);
                if range_value(0, 100, draw_after(x2)) < st.zone_threshold {
                    let x4 = xorshift64(x3);
                    let z = if range_value(0, 2, draw_after(x3)) == 0 { VelocityZone::Low } else { VelocityZone::Mid };
                    let u = steps.update(i as int, Step { velocity_zone: z, ..s2 });
                    law_vary_toggle_threshold(u, i + 1, x4, st);
                    lemma_vary_from_frame(u, i + 1, x4, st);
                } else {
                    let u = steps.update(i as int, s2);
                    law_vary_toggle_threshold(u, i + 1, x3, st);
                    lemma_vary_from_frame(u, i + 1, x3, st);
                }
            } else {
                let u = steps.update(i as int, s1);
                law_vary_toggle_threshold(u, i + 1, x1, st);
                lemma_vary_from_frame(u, i + 1, x1, st);
            }
        }
    }
}

fn track_has_accent(track: &Track) -> (r: bool)
    ensures
        r == has_accent(track.steps@),
{
    let mut i: usize = 0;
    while i < 16
        invariant
            i <= 16,
            track.steps@.len() == 16,
            forall|k: int| 0 <= k < i ==> !is_accent(#[trigger] track.steps@[k]),
        decreases 16 - i,
    {
        let s = track.steps[i];
        if s.active && s.velocity_zone == VelocityZone::Accent {
            assert(is_accent(track.steps@[i as int]));
            return true;
        }
        i = i + 1;
    }
    false
}

/// Vary `track` with strength `st`, drawing from `rng`.
pub fn vary(track: &mut Track, st: &Strength, rng: &mut Rng)
    requires
        st.wf(),
    ensures
        !has_accent(old(track).steps@) ==> final(track).steps@ == roll_from(old(track).steps@, 0, old(rng).0, *st).0
            && final(rng).0 == roll_from(old(track).steps@, 0, old(rng).0, *st).1,
        has_accent(old(track).steps@) ==> final(track).steps@ == vary_from(old(track).steps@, 0, old(rng).0, *st).0
            && final(rng).0 == vary_from(old(track).steps@, 0, old(rng).0, *st).1,
        *final(track) == (Track { steps: final(track).steps, ..*old(track) }),
        final(track).length == old(track).length,
        final(track).midi_note == old(track).midi_note,
        final(track).speed_ratio == old(track).speed_ratio,
        forall|k: int| 0 <= k < 16 && is_accent(old(track).steps@[k]) ==> #[trigger] final(track).steps@[k] == old(track).steps@[k],
        forall|k: int| 0 <= k < 16 ==> (#[trigger] final(track).steps@[k]).ratchet == old(track).steps@[k].ratchet,
        st.toggle_threshold <= 0 ==> forall|k: int| 0 <= k < 16 ==>
            (#[trigger] final(track).steps@[k]).active == old(track).steps@[k].active,
        has_accent(old(track).steps@) && st.toggle_threshold > 100 ==> forall|k: int|
            0 <= k < 16 && !is_accent(old(track).steps@[k]) ==>
            (#[trigger] final(track).steps@[k]).active == !old(track).steps@[k].active,
{
    if !track_has_accent(track) {
        roll(track, st, rng);
        return;
    }
    proof {
        lemma_vary_from_frame(track.steps@, 0, rng.0, *st);
        law_vary_toggle_threshold(track.steps@, 0, rng.0, *st);
    }
    let mut i: usize = 0;
    while i < 16
        invariant
            i <= 16,
            st.wf(),
            track.steps@.len() == 16,
            vary_from(track.steps@, i as nat, rng.0, *st) == vary_from(old(track).steps@, 0, old(rng).0, *st),
            *track == (Track { steps: track.steps, ..*old(track) }),
        decreases 16 - i,
    {
        let step = track.steps[i];
        let accent = step.active && step.velocity_zone == VelocityZone::Accent;
        if !accent {
            let t = rng.range(0, 100);
            let act = if t < st.toggle_threshold { !step.active } else { step.active };
            let s1 = Step { active: act, ..step };
            if act {
                let r = rng.range(-50, 50);
                let s2 = Step { micro_timing_offset: st.offset_bits[(r + 50) as usize], ..s1 };
                let z = rng.range(0, 100);
                if z < st.zone_threshold {
                    let v = rng.range(0, 2);
                    let zone = if v == 0 { VelocityZone::Low } else { VelocityZone::Mid };
                    track.steps[i] = Step { velocity_zone: zone, ..s2 };
                } else {
                    track.steps[i] = s2;
                }
            } else {
                track.steps[i] = s1;
            }
        }
        i = i + 1;
    }
}

} // verus!
