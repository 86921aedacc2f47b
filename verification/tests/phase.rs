use i2s_tone::phase::PhaseCounter;
use i2s_tone::waveform::{next_sample, WaveformError};

fn counter(period: u16) -> PhaseCounter {
    match PhaseCounter::new(period) {
        Ok(counter) => counter,
        Err(e) => panic!("period {} was turned down: {:?}", period, e),
    }
}

#[test]
fn counter_starts_at_zero() {
    let phase = counter(436);
    assert_eq!(phase.value(), 0);
    assert_eq!(phase.period(), 436);
}

#[test]
fn counter_turns_down_a_period_under_two() {
    assert!(matches!(PhaseCounter::new(0), Err(WaveformError::PeriodTooSmall)));
    assert!(matches!(PhaseCounter::new(1), Err(WaveformError::PeriodTooSmall)));
}

#[test]
fn counter_turns_down_an_odd_period() {
    assert!(matches!(PhaseCounter::new(3), Err(WaveformError::OddPeriod)));
    assert!(matches!(PhaseCounter::new(65535), Err(WaveformError::OddPeriod)));
}

#[test]
fn advance_moves_by_one_and_wraps_at_the_period() {
    let mut phase = counter(4);
    assert_eq!(phase.value(), 0);
    phase.advance();
    assert_eq!(phase.value(), 1);
    phase.advance();
    assert_eq!(phase.value(), 2);
    phase.advance();
    assert_eq!(phase.value(), 3);
    phase.advance();
    assert_eq!(phase.value(), 0);
    assert_eq!(phase.period(), 4);
}

#[test]
fn one_period_of_advances_returns_to_the_start() {
    for period in [2u16, 100, 436, 65534] {
        let mut phase = counter(period);
        for _ in 0u16..7 {
            phase.advance();
        }
        let start: u16 = phase.value();
        for _ in 0u16..period {
            phase.advance();
        }
        assert_eq!(phase.value(), start);
    }
}

#[test]
fn no_value_comes_twice_inside_a_period() {
    let mut phase = counter(100);
    let mut seen = vec![false; 100];
    for _ in 0u16..100 {
        let at = usize::from(phase.value());
        assert!(!seen[at]);
        seen[at] = true;
        phase.advance();
    }
    assert!(seen.iter().all(|&s| s));
}

#[test]
fn counter_samples_the_tone_at_its_value() {
    let mut phase = counter(100);
    assert_eq!(phase.sample(), -32767);
    for _ in 0u16..50 {
        phase.advance();
    }
    assert_eq!(phase.sample(), 0);
    for expected in 50u16..100 {
        assert_eq!(phase.value(), expected);
        assert_eq!(phase.sample(), next_sample(expected, 100));
        phase.advance();
    }
    assert_eq!(phase.sample(), -32767);
}
