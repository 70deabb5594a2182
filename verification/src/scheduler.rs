//! Pattern queue with quantize grains. A queued switch fires at the first
//! boundary of its grain (or a coarser one) and is preceded by an
//! all-notes-off burst so stale notes don't ring across patterns.

use vstd::prelude::*;
use crate::midi::{build_all_notes_off, all_notes_off_msg};
use crate::midi_out::{MidiOutRing, MidiMsg, push_drop_oldest, midi_ring_contents, pushed_drop_oldest, MIDI_RING_DEPTH};
use crate::models::{QuantizeGrain, Session, MAX_TRACKS};

verus! {

/// Whether a switch queued at grain `queued` fires at a boundary of grain `at`:
/// every boundary is a step, every beat is a step, every bar is a beat, and the
/// end of the pattern is a bar.
pub open spec fn grain_fires(queued: QuantizeGrain, at: QuantizeGrain) -> bool {
    match queued {
        QuantizeGrain::NextStep => true,
        QuantizeGrain::NextBeat => at != QuantizeGrain::NextStep,
        QuantizeGrain::NextBar => at == QuantizeGrain::NextBar || at == QuantizeGrain::EndOfPattern,
        QuantizeGrain::EndOfPattern => at == QuantizeGrain::EndOfPattern,
    }
}

pub fn grain_reached(queued: QuantizeGrain, at: QuantizeGrain) -> (r: bool)
    ensures
        r == grain_fires(queued, at),
{
    match queued {
        QuantizeGrain::NextStep => true,
        QuantizeGrain::NextBeat => match at {
            QuantizeGrain::NextStep => false,
            _ => true,
        },
        QuantizeGrain::NextBar => match at {
            QuantizeGrain::NextBar | QuantizeGrain::EndOfPattern => true,
            _ => false,
        },
        QuantizeGrain::EndOfPattern => match at {
            QuantizeGrain::EndOfPattern => true,
            _ => false,
        },
    }
}

/// The coarsest grain whose boundary falls at global 16th `step` of the bar:
/// the bar start ends the pattern, every fourth 16th is a beat.
pub open spec fn grain_at(step: u32) -> QuantizeGrain {
    if step == 0 {
        QuantizeGrain::EndOfPattern
    } else if step % 4 == 0 {
        QuantizeGrain::NextBeat
    } else {
        QuantizeGrain::NextStep
    }
}

pub fn grain_at_step(step: u32) -> (g: QuantizeGrain)
    ensures
        g == grain_at(step),
{
    if step == 0 {
        QuantizeGrain::EndOfPattern
    } else if step % 4 == 0 {
        QuantizeGrain::NextBeat
    } else {
        QuantizeGrain::NextStep
    }
}

/// The ring after `k` drop-oldest pushes of `m`.
pub open spec fn pushed_n(c: Seq<MidiMsg>, m: MidiMsg, k: nat) -> Seq<MidiMsg>
    decreases k,
{
    if k == 0 {
        c
    } else {
        pushed_drop_oldest(pushed_n(c, m, (k - 1) as nat), m)
    }
}

/// Push `MAX_TRACKS` all-notes-off messages on the session's channel (bounded,
/// so the burst can never overflow the ring by itself).
pub fn all_notes_off_burst(s: &Session, midi: &mut MidiOutRing)
    requires
        midi_ring_contents(*old(midi)).len() <= MIDI_RING_DEPTH,
    ensures
        midi_ring_contents(*final(midi)) == pushed_n(
            midi_ring_contents(*old(midi)),
            all_notes_off_msg(0, s.global_midi_channel),
            MAX_TRACKS as nat,
        ),
        midi_ring_contents(*final(midi)).len() <= MIDI_RING_DEPTH,
{
    let ghost c0 = midi_ring_contents(*midi);
    let ghost m = all_notes_off_msg(0, s.global_midi_channel);
    let mut i: usize = 0;
    while i < MAX_TRACKS
        invariant
            i <= MAX_TRACKS,
            m == all_notes_off_msg(0, s.global_midi_channel),
            midi_ring_contents(*midi) == pushed_n(c0, m, i as nat),
            midi_ring_contents(*midi).len() <= MIDI_RING_DEPTH,
        decreases MAX_TRACKS - i,
    {
        let msg = build_all_notes_off(0, s.global_midi_channel);
        let _ = push_drop_oldest(midi, msg);
        i = i + 1;
    }
}

/// The pattern queue: at most one queued switch, a pending retrigger flag, and
/// a fired switch waiting to be published.
pub struct Scheduler {
    pub queued: Option<(usize, QuantizeGrain)>,
    pub retrigger: bool,
    pub switch_request: Option<usize>,
}

impl Default for Scheduler {
    fn default() -> (s: Self)
        ensures
            s.queued is None,
            !s.retrigger,
            s.switch_request is None,
    {
        Scheduler { queued: None, retrigger: false, switch_request: None }
    }
}

impl Scheduler {
    /// Queue pattern `index` to start at the next `grain` boundary (replacing
    /// any earlier queued switch).
    pub fn queue(&mut self, index: usize, grain: QuantizeGrain)
        ensures
            final(self).queued == Some((index, grain)),
            final(self).retrigger == old(self).retrigger,
            final(self).switch_request == old(self).switch_request,
    {
        self.queued = Some((index, grain));
    }

    pub fn cancel(&mut self)
        ensures
            final(self).queued is None,
            final(self).retrigger == old(self).retrigger,
            final(self).switch_request == old(self).switch_request,
    {
        self.queued = None;
    }

    /// At a boundary of grain `at_grain`: when the queued switch's grain is
    /// reached, consume it, push the all-notes-off burst and return its index.
    pub fn on_boundary(&mut self, s: &Session, midi: &mut MidiOutRing, at_grain: QuantizeGrain) -> (r: Option<usize>)
        requires
            midi_ring_contents(*old(midi)).len() <= MIDI_RING_DEPTH,
        ensures
            r == (match old(self).queued {
                Some((idx, g)) => if grain_fires(g, at_grain) { Some(idx) } else { None::<usize> },
                None => None::<usize>,
            }),
            r is Some ==> final(self).queued is None && midi_ring_contents(*final(midi)) == pushed_n(
                midi_ring_contents(*old(midi)),
                all_notes_off_msg(0, s.global_midi_channel),
                MAX_TRACKS as nat,
            ),
            r is None ==> final(self).queued == old(self).queued && *final(midi) == *old(midi),
            final(self).retrigger == old(self).retrigger,
            final(self).switch_request == old(self).switch_request,
            midi_ring_contents(*final(midi)).len() <= MIDI_RING_DEPTH,
    {
        match self.queued {
            Some((idx, g)) => {
                if grain_reached(g, at_grain) {
                    self.queued = None;
                    all_notes_off_burst(s, midi);
                    Some(idx)
                } else {
                    None
                }
            },
            None => None,
        }
    }

    /// At global 16th `step`: the queued switch, if its grain is reached there.
    /// Consumes it.
    pub fn take_if_due(&mut self, step: u32) -> (r: Option<usize>)
        ensures
            r == (match old(self).queued {
                Some((idx, g)) => if grain_fires(g, grain_at(step)) { Some(idx) } else { None::<usize> },
                None => None::<usize>,
            }),
            r is Some ==> final(self).queued is None,
            r is None ==> final(self).queued == old(self).queued,
            final(self).retrigger == old(self).retrigger,
            final(self).switch_request == old(self).switch_request,
    {
        let at = grain_at_step(step);
        match self.queued {
            Some((idx, g)) => {
                if grain_reached(g, at) {
                    self.queued = None;
                    Some(idx)
                } else {
                    None
                }
            },
            None => None,
        }
    }

    /// Ask for the current pattern to restart from step 0 at the next step.
    pub fn request_retrigger(&mut self)
        ensures
            final(self).retrigger,
            final(self).queued == old(self).queued,
            final(self).switch_request == old(self).switch_request,
    {
        self.retrigger = true;
    }

    /// Consume a pending retrigger.
    pub fn take_retrigger(&mut self) -> (r: bool)
        ensures
            r == old(self).retrigger,
            !final(self).retrigger,
            final(self).queued == old(self).queued,
            final(self).switch_request == old(self).switch_request,
    {
        let r = self.retrigger;
        self.retrigger = false;
        r
    }

    /// Record a fired switch for the state worker to publish.
    pub fn request_switch(&mut self, index: usize)
        ensures
            final(self).switch_request == Some(index),
            final(self).queued == old(self).queued,
            final(self).retrigger == old(self).retrigger,
    {
        self.switch_request = Some(index);
    }

    /// Consume a fired switch.
    pub fn take_switch(&mut self) -> (r: Option<usize>)
        ensures
            r == old(self).switch_request,
            final(self).switch_request is None,
            final(self).queued == old(self).queued,
            final(self).retrigger == old(self).retrigger,
    {
        let r = self.switch_request;
        self.switch_request = None;
        r
    }
}

/// A switch queued at any grain is due at the bar start (global 16th 0); a
/// `NextStep` switch is due at every step.
pub proof fn law_bar_start_fires_every_grain(g: QuantizeGrain, step: u32)
    ensures
        grain_fires(g, grain_at(0)),
        grain_fires(QuantizeGrain::NextStep, grain_at(step)),
{
}

/// How coarse a grain is: step, then beat, then bar, then the pattern's end.
pub open spec fn grain_rank(g: QuantizeGrain) -> int {
    match g {
        QuantizeGrain::NextStep => 0,
        QuantizeGrain::NextBeat => 1,
        QuantizeGrain::NextBar => 2,
        QuantizeGrain::EndOfPattern => 3,
    }
}

/// A queued switch waits for its own grain: it fires at a boundary exactly
/// when that boundary is at least as coarse as the grain it was queued at (a
/// switch for the next beat does not fire at a plain 16th).
pub proof fn law_switch_waits_for_its_grain(queued: QuantizeGrain, at: QuantizeGrain)
    ensures
        grain_fires(queued, at) <==> grain_rank(queued) <= grain_rank(at),
{
}

/// Within a bar of sixteen 16ths, a switch for the next step is due at every
/// step, one for the next beat only on the beats (every fourth 16th), and one
/// for the next bar or the pattern's end only at the bar start.
pub proof fn law_switch_due_at_step(queued: QuantizeGrain, step: u32)
    requires
        step < 16,
    ensures
        grain_fires(queued, grain_at(step)) <==> match queued {
            QuantizeGrain::NextStep => true,
            QuantizeGrain::NextBeat => step % 4 == 0,
            QuantizeGrain::NextBar => step == 0,
            QuantizeGrain::EndOfPattern => step == 0,
        },
{
}

} // verus!
