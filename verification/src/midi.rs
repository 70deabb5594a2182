//! MIDI dispatch math: velocity per zone, velocity humanize, ratchet counts and
//! the note-on / all-notes-off message builders.

use vstd::prelude::*;
use crate::clock::{Rng, xorshift64, draw_after, range_value};
use crate::midi_out::MidiMsg;
use crate::models::{Ratchet, VelocityZone};

verus! {

pub const VEL_LOW: u8 = 42;
pub const VEL_MID: u8 = 85;
pub const VEL_ACCENT: u8 = 127;
pub const DEFAULT_GATE_MICROS: u32 = 50_000;
pub const NOTE_ON: u8 = 0x90;
pub const NOTE_OFF: u8 = 0x80;
pub const CC: u8 = 0xB0;
pub const ALL_NOTES_OFF_CC: u8 = 123;

/// The base velocity of a zone.
pub open spec fn zone_velocity(zone: VelocityZone) -> u8 {
    match zone {
        VelocityZone::Low => VEL_LOW,
        VelocityZone::Mid => VEL_MID,
        VelocityZone::Accent => VEL_ACCENT,
    }
}

/// The base velocity of a zone.
pub fn velocity_for_zone(zone: VelocityZone) -> (v: u8)
    ensures
        v == zone_velocity(zone),
{
    match zone {
        VelocityZone::Low => VEL_LOW,
        VelocityZone::Mid => VEL_MID,
        VelocityZone::Accent => VEL_ACCENT,
    }
}

/// A velocity kept in 1..=127.
pub open spec fn clamp_velocity(v: int) -> u8 {
    if v < 1 {
        1
    } else if v > 127 {
        127
    } else {
        v as u8
    }
}

/// Velocity `base` moved by a draw in `-mag..=mag`, clamped to 1..=127.
pub open spec fn jittered_velocity(base: u8, mag: i32, d: u32) -> u8 {
    clamp_velocity(base + range_value(-mag, mag as int, d))
}

/// Humanize a base velocity by a random jitter of at most `mag` MIDI units
/// (`mag` is the rounded humanize amount times the zone weight times 5). With
/// `mag == 0` the velocity is returned unchanged and no draw is taken.
pub fn jitter_velocity(base: u8, mag: i32, rng: &mut Rng) -> (v: u8)
    requires
        -0x3FFF_FFFF <= mag <= 0x3FFF_FFFF,
    ensures
        mag == 0 ==> v == base && final(rng).0 == old(rng).0,
        mag != 0 ==> v == jittered_velocity(base, mag, draw_after(old(rng).0))
            && final(rng).0 == xorshift64(old(rng).0),
        mag > 0 ==> base - mag <= v <= base + mag || v == 1 || v == 127,
        1 <= v <= 127 || (mag == 0 && v == base),
{
    if mag == 0 {
        return base;
    }
    let jitter = rng.range(-mag, mag);
    let raw = base as i32 + jitter;
    let clamped = if raw < 1 {
        1
    } else if raw > 127 {
        127
    } else {
        raw
    };
    clamped as u8
}

/// How many note-ons a step with ratchet `r` fires.
pub open spec fn ratchet_hits(r: Ratchet) -> u32 {
    match r {
        Ratchet::Off => 1,
        Ratchet::X2 => 2,
        Ratchet::X3 => 3,
        Ratchet::X4 => 4,
    }
}

/// Number of note-ons a step fires.
pub fn ratchet_count(r: Ratchet) -> (n: u32)
    ensures
        n == ratchet_hits(r),
        1 <= n <= 4,
{
    match r {
        Ratchet::Off => 1,
        Ratchet::X2 => 2,
        Ratchet::X3 => 3,
        Ratchet::X4 => 4,
    }
}

/// The note-on message for a hit, with the default gate.
pub open spec fn note_on_msg(endpoint: u32, channel: u8, note: u8, velocity: u8, offset: u32) -> MidiMsg {
    MidiMsg {
        endpoint,
        channel,
        status: (NOTE_ON | (channel & 0x0F)) as u8,
        note,
        velocity,
        send_at_offset_micros: offset,
        gate_micros: DEFAULT_GATE_MICROS,
    }
}

/// The note-on message for a hit on `channel`, sent `send_at_offset_micros` after the tick.
pub fn build_note_on(endpoint: u32, channel: u8, note: u8, velocity: u8, send_at_offset_micros: u32) -> (m: MidiMsg)
    ensures
        m == note_on_msg(endpoint, channel, note, velocity, send_at_offset_micros),
        m.status == 0x90 + channel % 16,
{
    let status = NOTE_ON | (channel & 0x0F);
    assert(NOTE_ON | (channel & 0x0F) == 0x90 + channel % 16) by (bit_vector);
    MidiMsg {
        endpoint,
        channel,
        status,
        note,
        velocity,
        send_at_offset_micros,
        gate_micros: DEFAULT_GATE_MICROS,
    }
}

/// The all-notes-off controller message on `channel`.
pub open spec fn all_notes_off_msg(endpoint: u32, channel: u8) -> MidiMsg {
    MidiMsg {
        endpoint,
        channel,
        status: (CC | (channel & 0x0F)) as u8,
        note: ALL_NOTES_OFF_CC,
        velocity: 0,
        send_at_offset_micros: 0,
        gate_micros: 0,
    }
}

/// Control change 123 (all notes off) on `channel`.
pub fn build_all_notes_off(endpoint: u32, channel: u8) -> (m: MidiMsg)
    ensures
        m == all_notes_off_msg(endpoint, channel),
        m.status == 0xB0 + channel % 16,
{
    let status = CC | (channel & 0x0F);
    assert(CC | (channel & 0x0F) == 0xB0 + channel % 16) by (bit_vector);
    MidiMsg {
        endpoint,
        channel,
        status,
        note: ALL_NOTES_OFF_CC,
        velocity: 0,
        send_at_offset_micros: 0,
        gate_micros: 0,
    }
}

} // verus!
