use sequencer_engine::algorithms::roll::roll;
use sequencer_engine::algorithms::strength::Strength;
use sequencer_engine::algorithms::vary::vary;
use sequencer_engine::clock::Rng;
use sequencer_engine::models::{Step, Track, VelocityZone};

fn strength(s: f32) -> Strength {
    let s = s.clamp(0.0, 1.0);
    Strength {
        offset_bits: (-50i32..=50).map(|r| ((r as f32 / 100.0) * s).to_bits()).collect(),
        toggle_threshold: (s * 30.0) as i32,
        zone_threshold: (s * 40.0) as i32,
    }
}

fn track_with_accent() -> Track {
    let mut t = Track::default();
    t.steps[0] = Step { active: true, velocity_zone: VelocityZone::Accent, ..Default::default() };
    t.steps[2] = Step { active: true, velocity_zone: VelocityZone::Mid, ..Default::default() };
    t.length = 5;
    t.midi_note = 40;
    t.speed_ratio = 0.5f32.to_bits();
    t
}

fn active_track() -> Track {
    let mut t = Track::default();
    t.steps[0] = Step { active: true, velocity_zone: VelocityZone::Mid, ..Default::default() };
    t.length = 7;
    t.midi_note = 55;
    t.speed_ratio = 2.0f32.to_bits();
    t
}

#[test]
fn vary_locks_accents() {
    let mut t = track_with_accent();
    let accent_before = t.steps[0];
    vary(&mut t, &strength(1.0), &mut Rng::new(3));
    assert_eq!(t.steps[0], accent_before, "accent step unchanged");
}

#[test]
fn vary_falls_back_to_roll_with_no_accents() {
    let mut t = Track::default();
    t.steps[0] = Step { active: true, velocity_zone: VelocityZone::Mid, ..Default::default() };
    vary(&mut t, &strength(1.0), &mut Rng::new(9));
    assert!(f32::from_bits(t.steps[0].micro_timing_offset).abs() <= 0.5);
    // the fallback is exactly Roll with the same generator
    let mut u = Track::default();
    u.steps[0] = Step { active: true, velocity_zone: VelocityZone::Mid, ..Default::default() };
    roll(&mut u, &strength(1.0), &mut Rng::new(9));
    assert_eq!(t.steps, u.steps);
}

#[test]
fn vary_preserves_invariants() {
    for seed in (0u64..10_000).step_by(97) {
        for s in [0.0f32, 0.1, 0.5, 0.9, 0.999] {
            let mut t = track_with_accent();
            let before = (t.length, t.midi_note, t.speed_ratio);
            vary(&mut t, &strength(s), &mut Rng::new(seed));
            assert_eq!(before, (t.length, t.midi_note, t.speed_ratio));
        }
    }
}

#[test]
fn roll_preserves_invariants() {
    for seed in (0u64..10_000).step_by(89) {
        for s in [0.0f32, 0.25, 0.5, 0.75, 0.999] {
            let mut t = active_track();
            let before = (t.length, t.midi_note, t.speed_ratio);
            roll(&mut t, &strength(s), &mut Rng::new(seed));
            assert_eq!(before, (t.length, t.midi_note, t.speed_ratio));
        }
    }
}

#[test]
fn roll_only_retimes_active_steps() {
    let mut t = active_track();
    let before = t;
    roll(&mut t, &strength(1.0), &mut Rng::new(5));
    for i in 0..16 {
        assert_eq!(t.steps[i].active, before.steps[i].active);
        assert_eq!(t.steps[i].velocity_zone, before.steps[i].velocity_zone);
        if !before.steps[i].active {
            assert_eq!(t.steps[i], before.steps[i]);
        } else {
            assert!(f32::from_bits(t.steps[i].micro_timing_offset).abs() <= 0.5);
        }
    }
}

#[test]
fn roll_at_zero_strength_centres_offsets() {
    let mut t = active_track();
    t.steps[0].micro_timing_offset = 0.3f32.to_bits();
    roll(&mut t, &strength(0.0), &mut Rng::new(11));
    assert_eq!(f32::from_bits(t.steps[0].micro_timing_offset).abs(), 0.0);
}
