use tsk_effects::{
    ChorusModulation, FlangerModulation, PhaserModulation, LFO, ACTIVE_VOICES, PHASE_CYCLE,
    QUARTER_TURN,
};

#[test]
fn lfo_returns_after_one_period() {
    // 256 steps of a 256th of a turn
    let inc = (PHASE_CYCLE / 256) as u32;
    for start in [0u32, 1, 12345, u32::MAX] {
        let mut lfo = LFO::new_with_phase(inc, start);
        for _ in 0..256 {
            lfo.update_lfo();
        }
        assert_eq!(lfo.phase(), start);
    }
}

#[test]
fn lfo_wraps_within_one_turn() {
    let mut lfo = LFO::new_with_phase(0x8000_0000, 0xC000_0000);
    lfo.update_lfo();
    assert_eq!(lfo.phase(), 0x4000_0000);
}

#[test]
fn lfo_reading_does_not_advance() {
    let lfo = LFO::new(1000);
    assert_eq!(lfo.phase(), 0);
    assert_eq!(lfo.phase(), 0);
}

#[test]
fn lfo_rate_change_keeps_phase() {
    let mut lfo = LFO::new(10);
    lfo.update_lfo();
    lfo.set_increment(100);
    assert_eq!(lfo.phase(), 10);
    assert_eq!(lfo.increment(), 100);
    lfo.update_lfo();
    assert_eq!(lfo.phase(), 110);
}

#[test]
fn lfo_random_phase_keeps_rate() {
    let lfo = LFO::new_random_phase(77, 9);
    assert_eq!(lfo.increment(), 77);
}

#[test]
fn lfo_same_seed_same_phase() {
    let a = LFO::new_random_phase(1, 42);
    let b = LFO::new_random_phase(2, 42);
    assert_eq!(a.phase(), b.phase());
}

#[test]
fn lfo_seed_is_not_the_phase() {
    // the draw scrambles its seed: distinct seeds give distinct phases here
    let phases: Vec<u32> = (0..8u64).map(|s| LFO::new_random_phase(0, s).phase()).collect();
    for (i, p) in phases.iter().enumerate() {
        for q in phases.iter().skip(i + 1) {
            assert_ne!(p, q);
        }
    }
    assert_ne!(phases[3], 3);
}

#[test]
fn phaser_advances_once_per_frame_in_order() {
    let mut m = PhaserModulation::new(1000);
    for frame in 0..10u32 {
        let l = m.left_phase();
        let r = m.right_phase();
        assert_eq!(l, frame * 1000);
        assert_eq!(l, r);
    }
    assert_eq!(m.left_phase(), 10_000);
}

#[test]
fn phaser_wrong_order_is_detected() {
    let mut m = PhaserModulation::new(1000);
    // right before left within a frame
    let r = m.right_phase();
    let l = m.left_phase();
    assert_ne!(l, r);
    assert_eq!(l, r + 1000);
}

#[test]
fn phaser_frame_phases() {
    let mut m = PhaserModulation::new(5);
    assert_eq!(m.frame_phases(), (0, 0));
    assert_eq!(m.frame_phases(), (5, 5));
}

#[test]
fn phaser_stage_count_clamped() {
    let mut m = PhaserModulation::new(1);
    m.set_params(1, 0);
    assert_eq!(m.active_allpasses(), 2);
    m.set_params(1, 2);
    assert_eq!(m.active_allpasses(), 4);
    m.set_params(1, 9);
    assert_eq!(m.active_allpasses(), 6);
}

#[test]
fn phaser_corner_table() {
    assert_eq!(tsk_effects::corner_range(0), (16, 1600));
    assert_eq!(tsk_effects::corner_range(3), (98, 9800));
    assert_eq!(tsk_effects::corner_range(5), (260, 20480));
}

#[test]
fn flanger_right_starts_quarter_turn_ahead() {
    let m = FlangerModulation::new(0);
    assert_eq!(m.left_phase(), 0);
    let mut m = m;
    m.set_params(0, true);
    assert_eq!(m.right_phase(), QUARTER_TURN);
}

#[test]
fn flanger_mono_follows_left() {
    let mut m = FlangerModulation::new(10);
    assert_eq!(m.right_phase(), 10);
    assert_eq!(m.left_phase(), 10);
}

#[test]
fn flanger_mono_still_advances_right() {
    let mut m = FlangerModulation::new(10);
    assert_eq!(m.right_phase(), 10);
    m.set_params(10, true);
    assert_eq!(m.right_phase(), QUARTER_TURN + 20);
    assert_eq!(m.left_phase(), 20);
}

#[test]
fn flanger_stereo_advances_both() {
    let mut m = FlangerModulation::new(10);
    m.set_params(10, true);
    assert_eq!(m.right_phase(), QUARTER_TURN + 10);
    assert_eq!(m.left_phase(), 10);
}

#[test]
fn chorus_mono_uses_left_phases() {
    let mut m = ChorusModulation::new(3, 11);
    m.set_params(3, true);
    assert_eq!(m.left_phases(), m.right_phases());
    assert_eq!(m.left_phases().len(), ACTIVE_VOICES);
}

#[test]
fn chorus_update_advances_every_voice() {
    let mut m = ChorusModulation::new(3, 11);
    let before_l = m.left_phases();
    let before_r = m.right_phases();
    m.update_modulators();
    for (a, b) in before_l.iter().zip(m.left_phases().iter()) {
        assert_eq!(a.wrapping_add(3), *b);
    }
    for (a, b) in before_r.iter().zip(m.right_phases().iter()) {
        assert_eq!(a.wrapping_add(3), *b);
    }
}

#[test]
fn chorus_seeded_voices_repeat() {
    let a = ChorusModulation::new(3, 1234);
    let b = ChorusModulation::new(3, 1234);
    assert_eq!(a.left_phases(), b.left_phases());
    assert_eq!(a.right_phases(), b.right_phases());
    assert_eq!(a.left_phases()[0], LFO::new_random_phase(0, 1234).phase());
    assert_eq!(a.right_phases()[0], LFO::new_random_phase(0, 1234 + 5).phase());
    assert_ne!(a.left_phases(), a.right_phases());
}
