use qdx_receiver::tuning::{band_frequency, digit_step, Tuner, TuningAction, TuningInput};

#[test]
fn digit_steps_are_powers_of_ten() {
    assert_eq!(digit_step(0), 1);
    assert_eq!(digit_step(3), 1000);
    assert_eq!(digit_step(7), 10_000_000);
}

#[test]
fn increment_and_decrement_digit() {
    let mut t = Tuner::new(14_074_000);
    assert_eq!(t.handle(TuningInput::IncrementDigit(3)), TuningAction::Retune(14_075_000));
    assert_eq!(t.frequency(), 14_075_000);
    assert_eq!(t.wheel_digit(), Some(3));
    assert_eq!(t.handle(TuningInput::DecrementDigit(6)), TuningAction::Retune(13_075_000));
    assert_eq!(t.wheel_digit(), Some(6));
}

#[test]
fn steps_out_of_range_keep_frequency() {
    let mut t = Tuner::new(500);
    assert_eq!(t.handle(TuningInput::DecrementDigit(3)), TuningAction::OutOfRange);
    assert_eq!(t.frequency(), 500);
    assert_eq!(t.handle(TuningInput::DecrementDigit(2)), TuningAction::Retune(400));
    let mut high = Tuner::new(99_999_990);
    assert_eq!(high.handle(TuningInput::IncrementDigit(1)), TuningAction::OutOfRange);
    assert_eq!(high.handle(TuningInput::IncrementDigit(0)), TuningAction::Retune(99_999_991));
    let mut edge = Tuner::new(99_999_997);
    assert_eq!(edge.handle(TuningInput::IncrementDigit(0)), TuningAction::Retune(99_999_998));
    assert_eq!(edge.handle(TuningInput::IncrementDigit(0)), TuningAction::OutOfRange);
}

#[test]
fn large_initial_frequency_does_not_overflow() {
    let mut t = Tuner::new(u32::MAX);
    assert_eq!(t.handle(TuningInput::IncrementDigit(7)), TuningAction::OutOfRange);
    assert_eq!(t.frequency(), u32::MAX);
}

#[test]
fn wheel_follows_last_digit() {
    let mut t = Tuner::new(7_074_000);
    assert_eq!(t.handle(TuningInput::WheelUp), TuningAction::Nothing);
    assert_eq!(t.handle(TuningInput::WheelDown), TuningAction::Nothing);
    t.handle(TuningInput::IncrementDigit(2));
    assert_eq!(t.handle(TuningInput::WheelUp), TuningAction::Retune(7_074_200));
    assert_eq!(t.handle(TuningInput::WheelDown), TuningAction::Retune(7_074_100));
}

#[test]
fn band_table() {
    let expected = [
        (80u8, 3_573_000u32),
        (60, 5_357_000),
        (40, 7_074_000),
        (30, 10_136_000),
        (20, 14_074_000),
        (17, 18_100_000),
        (15, 21_074_000),
        (12, 24_915_000),
        (11, 27_255_000),
        (10, 28_180_000),
        (6, 14_074_000),
    ];
    for (m, f) in expected.iter() {
        assert_eq!(band_frequency(*m), *f);
        let mut t = Tuner::new(1);
        assert_eq!(t.handle(TuningInput::SetBandMetres(*m)), TuningAction::Retune(*f));
        assert_eq!(t.frequency(), *f);
    }
}

#[test]
fn mute_toggles() {
    let mut t = Tuner::new(7_074_000);
    assert!(!t.is_muted());
    assert_eq!(t.handle(TuningInput::ToggleMute), TuningAction::Mute);
    assert!(t.is_muted());
    assert_eq!(t.handle(TuningInput::ToggleMute), TuningAction::Unmute);
    assert!(!t.is_muted());
}
