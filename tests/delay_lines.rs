use tsk_effects::{capacity_for, DelayLine, History, MIN_DELAY_CAPACITY};

#[test]
fn history_starts_filled() {
    let h = History::new(4, 0i32);
    assert_eq!(h.len(), 4);
    for k in 0..4 {
        assert_eq!(h.ago(k), 0);
    }
}

#[test]
fn history_most_recent_first() {
    let mut h = History::new(3, 0i32);
    h.write(1);
    h.write(2);
    assert_eq!(h.ago(0), 2);
    assert_eq!(h.ago(1), 1);
    assert_eq!(h.ago(2), 0);
}

#[test]
fn history_drops_oldest_on_wrap() {
    let mut h = History::new(3, 0i32);
    for x in 1..=5 {
        h.write(x);
    }
    assert_eq!(h.ago(0), 5);
    assert_eq!(h.ago(1), 4);
    assert_eq!(h.ago(2), 3);
}

#[test]
fn history_reset_silences() {
    let mut h = History::new(3, 0i32);
    h.write(9);
    h.reset(5, -1);
    assert_eq!(h.len(), 5);
    assert_eq!(h.ago(0), -1);
    assert_eq!(h.ago(4), -1);
}

#[test]
fn impulse_read_at_integer_delay() {
    for d in 0..8usize {
        let mut line = DelayLine::new(8, 0.0f32);
        line.write_input(1.0);
        for _ in 0..d {
            line.write_input(0.0);
        }
        for k in 0..8usize {
            let expected = if k == d { 1.0 } else { 0.0 };
            assert_eq!(line.read_input(k), expected);
        }
        // a fractional read with zero fraction weighs the first tap fully
        let (a, b) = line.read_input_pair(d);
        let frac = 0.0f32;
        let y = a * (1.0 - frac) + b * frac;
        assert_eq!(y, 1.0);
    }
}

#[test]
fn zero_delay_reads_sample_just_written() {
    let mut line = DelayLine::new(4, 0i32);
    line.write_input(7);
    assert_eq!(line.read_input(0), 7);
}

#[test]
fn delay_beyond_capacity_is_clamped() {
    let mut line = DelayLine::new(4, 0i32);
    for x in 1..=4 {
        line.write_input(x);
    }
    assert_eq!(line.clamp(100), 3);
    assert_eq!(line.read_input(100), 1);
    assert_eq!(line.read_input(3), 1);
}

#[test]
fn pair_read_clamped_to_neighbouring_taps() {
    let mut line = DelayLine::new(4, 0i32);
    for x in 1..=4 {
        line.write_input(x);
    }
    assert_eq!(line.read_input_pair(1), (3, 2));
    assert_eq!(line.read_input_pair(2), (2, 1));
    assert_eq!(line.read_input_pair(3), (1, 1));
    assert_eq!(line.read_input_pair(50), (1, 1));
}

#[test]
fn impulse_at_last_whole_delay() {
    let mut line = DelayLine::new(2, 0.0f32);
    line.write_input(1.0);
    line.write_input(0.0);
    assert_eq!(line.read_input_pair(1).0, 1.0);
    assert_eq!(line.read_input(1), 1.0);
}

#[test]
fn capacity_from_seconds_and_rate() {
    assert_eq!(capacity_for(3, 44100), 132300);
    assert_eq!(capacity_for(1, 48000), 48000);
    assert_eq!(capacity_for(0, 44100), MIN_DELAY_CAPACITY);
    assert_eq!(capacity_for(1, 1), MIN_DELAY_CAPACITY);
    assert_eq!(capacity_for(usize::MAX, 2), usize::MAX);
}

#[test]
fn capacity_counts_both_histories() {
    let mut line = DelayLine::new(3, 0i32);
    assert_eq!(line.capacity(), 3);
    line.write_output(4);
    assert_eq!(line.read_output(2), 0);
    assert_eq!(line.read_output(0), 4);
}

#[test]
fn outputs_are_kept_apart_from_inputs() {
    let mut line = DelayLine::new(3, 0i32);
    line.write_input(5);
    line.write_output(8);
    line.write_output(9);
    assert_eq!(line.read_input(0), 5);
    assert_eq!(line.read_output(0), 9);
    assert_eq!(line.read_output(1), 8);
    assert_eq!(line.read_output(2), 0);
}

#[test]
fn feedback_delay_recurrence() {
    // y(n) = x(n - d) + g * y(n - d - 1), with the input written first
    let d = 2usize;
    let g = 0.5f32;
    let mut line = DelayLine::new(16, 0.0f32);
    let mut out = Vec::new();
    for n in 0..8 {
        let x = if n == 0 { 1.0 } else { 0.0 };
        line.write_input(x);
        let y = line.read_input(d) + g * line.read_output(d);
        line.write_output(y);
        out.push(y);
    }
    assert_eq!(out, vec![0.0, 0.0, 1.0, 0.0, 0.0, 0.5, 0.0, 0.0]);
}

#[test]
fn resize_loses_state() {
    let mut line = DelayLine::new(4, 0i32);
    line.write_input(3);
    line.write_output(4);
    line.resize_buffers(6, 0);
    assert_eq!(line.capacity(), 6);
    for k in 0..6 {
        assert_eq!(line.read_input(k), 0);
        assert_eq!(line.read_output(k), 0);
    }
}
