use tsk_effects::{active_stages, BiquadState, FilterType, FilterTypeTracker};

#[test]
fn filter_type_index_round_trip() {
    for i in 0..11 {
        assert_eq!(FilterType::from_index(i).to_index(), i);
    }
    assert_eq!(FilterType::LowPass1.to_index(), 0);
    assert_eq!(FilterType::Peak.to_index(), 10);
}

#[test]
fn filter_type_names() {
    let v = FilterType::variants();
    assert_eq!(v.len(), 11);
    assert_eq!(v[0], "First Order Low-Pass");
    assert_eq!(v[7], "Second Order All-Pass");
    assert_eq!(v[10], "Peak");
    let ids = FilterType::ids();
    assert_eq!(ids[1], "lp2");
    assert_eq!(ids[5], "notch");
    assert_eq!(FilterType::HighShelf.id(), "hs");
    assert_eq!(FilterType::BandPass.name(), "Band-Pass");
}

#[test]
fn resonance_clamped_only_for_second_order_allpass() {
    for i in 0..11 {
        let t = FilterType::from_index(i);
        assert_eq!(t.clamps_resonance(), t == FilterType::SecondOrderAllPass);
    }
}

#[test]
fn shelves_have_post_scale() {
    assert!(FilterType::LowShelf.has_post_scale());
    assert!(FilterType::HighShelf.has_post_scale());
    assert!(!FilterType::Peak.has_post_scale());
}

#[test]
fn type_change_requests_reset() {
    let mut t = FilterTypeTracker::new(FilterType::LowPass1);
    assert!(!t.observe(FilterType::LowPass1));
    assert!(t.observe(FilterType::Notch));
    assert!(!t.observe(FilterType::Notch));
    assert_eq!(t.current(), FilterType::Notch);
}

#[test]
fn biquad_state_shift_and_reset() {
    let mut s = BiquadState::new(0i32);
    s.shift(1, 10);
    s.shift(2, 20);
    assert_eq!((s.x1, s.x2, s.y1, s.y2), (2, 1, 20, 10));
    s.reset_filter(0);
    assert_eq!((s.x1, s.x2, s.y1, s.y2), (0, 0, 0, 0));
}

#[test]
fn disperser_stage_count() {
    assert_eq!(active_stages(0), 1);
    assert_eq!(active_stages(1), 1);
    assert_eq!(active_stages(57), 57);
    assert_eq!(active_stages(200), 200);
    assert_eq!(active_stages(5000), 200);
}
