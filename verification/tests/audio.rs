use lynx_runner::audio::{
    SampleAccumulator, CRYSTAL_FREQUENCY, SAMPLE_RATE, TICKS_PER_AUDIO_SAMPLE,
};

#[test]
fn ticks_per_sample_is_the_ratio_of_the_rates() {
    assert_eq!(CRYSTAL_FREQUENCY, 16_000_000);
    assert_eq!(SAMPLE_RATE, 16_000);
    assert_eq!(TICKS_PER_AUDIO_SAMPLE, 1000);
    assert_eq!(TICKS_PER_AUDIO_SAMPLE, (CRYSTAL_FREQUENCY / SAMPLE_RATE) as u64);
}

#[test]
fn a_sample_is_due_on_every_thousandth_tick() {
    let mut audio = SampleAccumulator::new();
    for tick in 1..=3000u32 {
        let due = audio.advance(false);
        assert_eq!(due, tick % 1000 == 0, "tick {}", tick);
    }
}

#[test]
fn three_thousand_ticks_gather_three_pairs() {
    let mut audio = SampleAccumulator::new();
    let mut next: i16 = 0;
    for _ in 0..3000 {
        if audio.advance(false) {
            audio.push(next, -next);
            next += 1;
        }
    }
    assert_eq!(audio.len(), 6);
    assert_eq!(audio.flush(), Some(vec![0, 0, 1, -1, 2, -2]));
}

#[test]
fn muted_ticks_gather_nothing() {
    let mut audio = SampleAccumulator::new();
    for _ in 0..3000 {
        assert!(!audio.advance(true));
    }
    assert_eq!(audio.len(), 0);
    assert_eq!(audio.flush(), None);
}

#[test]
fn the_counter_runs_on_while_muted() {
    let mut audio = SampleAccumulator::new();
    for _ in 0..999 {
        assert!(!audio.advance(true));
    }
    assert!(audio.advance(false));
    for _ in 0..1000 {
        assert!(!audio.advance(true));
    }
    for _ in 0..999 {
        assert!(!audio.advance(false));
    }
    assert!(audio.advance(false));
}

#[test]
fn no_sample_before_the_period_is_over() {
    let mut audio = SampleAccumulator::new();
    for _ in 0..999 {
        assert!(!audio.advance(false));
    }
    assert_eq!(audio.len(), 0);
}

#[test]
fn flush_empties_the_accumulator_and_keeps_the_counter() {
    let mut audio = SampleAccumulator::new();
    for _ in 0..500 {
        audio.advance(false);
    }
    audio.push(7, 8);
    assert_eq!(audio.flush(), Some(vec![7, 8]));
    assert_eq!(audio.len(), 0);
    assert_eq!(audio.flush(), None);
    for _ in 0..499 {
        assert!(!audio.advance(false));
    }
    assert!(audio.advance(false));
}

#[test]
fn pairs_are_kept_left_then_right() {
    let mut audio = SampleAccumulator::new();
    audio.push(i16::MIN, i16::MAX);
    audio.push(1, 2);
    assert_eq!(audio.len(), 4);
    assert_eq!(audio.flush(), Some(vec![i16::MIN, i16::MAX, 1, 2]));
}
