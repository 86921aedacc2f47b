use i2s_tone::waveform::{
    checked_sample, is_valid_period, next_sample, scaled_sample, to_code_word, WaveformError,
    MAX_AMPLITUDE,
};

#[test]
fn ceiling_is_the_largest_signed_16_bit_value() {
    assert_eq!(MAX_AMPLITUDE, i16::MAX);
}

#[test]
fn valid_periods_are_even_and_at_least_two() {
    assert!(!is_valid_period(0));
    assert!(!is_valid_period(1));
    assert!(is_valid_period(2));
    assert!(!is_valid_period(3));
    assert!(is_valid_period(436));
    assert!(!is_valid_period(437));
    assert!(is_valid_period(65534));
    assert!(!is_valid_period(65535));
}

#[test]
fn samples_follow_the_ramp_formula() {
    // (phase - 50) * 32767 / 50, rounded toward zero
    assert_eq!(next_sample(0, 100), -32767);
    assert_eq!(next_sample(1, 100), -32111);
    assert_eq!(next_sample(49, 100), -655);
    assert_eq!(next_sample(50, 100), 0);
    assert_eq!(next_sample(51, 100), 655);
    assert_eq!(next_sample(99, 100), 32111);
    // (phase - 218) * 32767 / 218, rounded toward zero
    assert_eq!(next_sample(0, 436), -32767);
    assert_eq!(next_sample(218, 436), 0);
    assert_eq!(next_sample(435, 436), 32616);
}

#[test]
fn period_100_under_ceiling_16384() {
    // one step is 16384 / 50 = 327.68
    let first: i16 = scaled_sample(0, 100, 16384);
    let middle: i16 = scaled_sample(50, 100, 16384);
    let last: i16 = scaled_sample(99, 100, 16384);
    assert_eq!(first, -16384);
    assert_eq!(middle, 0);
    assert_eq!(last, 16056);
    // the last sample is one step below the ceiling
    assert_eq!(16384 - i32::from(last), 328);
    // the wrap from phase 99 to phase 0 is the one downward jump
    assert_eq!(i32::from(first) - i32::from(last), -32440);
    for phase in 0u16..99 {
        assert!(scaled_sample(phase, 100, 16384) < scaled_sample(phase + 1, 100, 16384));
    }
}

#[test]
fn ramp_rises_inside_a_period_and_falls_once_at_the_wrap() {
    let period: u16 = 436;
    let mut descents: u32 = 0;
    for phase in 0u16..period {
        let here: i16 = next_sample(phase, period);
        let there: i16 = next_sample((phase + 1) % period, period);
        if there < here {
            descents += 1;
            assert_eq!(phase, period - 1);
        } else {
            assert!(here < there);
        }
    }
    assert_eq!(descents, 1);
    assert!(next_sample(period - 1, period) > 0);
    assert!(next_sample(0, period) <= 0);
    let jump: i32 = i32::from(next_sample(0, period)) - i32::from(next_sample(period - 1, period));
    assert_eq!(jump, -32767 - 32616);
}

#[test]
fn same_arguments_give_the_same_sample() {
    for phase in 0u16..436 {
        assert_eq!(next_sample(phase, 436), next_sample(phase, 436));
    }
    assert_eq!(checked_sample(7, 436), checked_sample(7, 436));
}

#[test]
fn samples_stay_inside_the_ceiling() {
    for period in [2u16, 4, 100, 436, 65534] {
        for phase in [0u16, 1, period / 2, period - 1] {
            let sample: i16 = next_sample(phase, period);
            assert!(-MAX_AMPLITUDE <= sample && sample <= MAX_AMPLITUDE);
        }
    }
}

#[test]
fn smallest_period_has_a_negative_and_a_zero_sample() {
    assert_eq!(next_sample(0, 2), -32767);
    assert_eq!(next_sample(1, 2), 0);
}

#[test]
fn largest_period_has_a_step_of_one() {
    assert_eq!(next_sample(0, 65534), -32767);
    assert_eq!(next_sample(32767, 65534), 0);
    assert_eq!(next_sample(65533, 65534), 32766);
}

#[test]
fn zero_ceiling_is_silence() {
    assert_eq!(scaled_sample(0, 100, 0), 0);
    assert_eq!(scaled_sample(99, 100, 0), 0);
}

#[test]
fn small_ceiling_is_still_reached_at_phase_zero() {
    assert_eq!(scaled_sample(0, 100, 49), -49);
    assert_eq!(scaled_sample(1, 100, 49), -48);
    assert_eq!(scaled_sample(49, 100, 49), 0);
    assert_eq!(scaled_sample(51, 100, 49), 0);
    assert_eq!(scaled_sample(99, 100, 49), 48);
    assert_eq!(scaled_sample(0, 100, 50), -50);
    assert_eq!(scaled_sample(99, 100, 50), 49);
    assert_eq!(scaled_sample(0, 100, 1), -1);
    for phase in 1u16..100 {
        assert_eq!(scaled_sample(phase, 100, 1), 0);
    }
}

#[test]
fn every_period_spans_the_whole_range() {
    for period in [2u16, 4, 100, 436, 40000, 65534] {
        assert_eq!(next_sample(0, period), -MAX_AMPLITUDE);
        assert_eq!(next_sample(period / 2, period), 0);
    }
    assert_eq!(next_sample(3, 4), 16383);
    assert_eq!(next_sample(39999, 40000), 32765);
}

#[test]
fn samples_round_toward_zero_on_both_sides() {
    // three places from the middle of a period of 8: 3 * 10 / 4 = 7.5
    assert_eq!(scaled_sample(7, 8, 10), 7);
    assert_eq!(scaled_sample(1, 8, 10), -7);
    // one place from the middle: 1 * 10 / 4 = 2.5
    assert_eq!(scaled_sample(5, 8, 10), 2);
    assert_eq!(scaled_sample(3, 8, 10), -2);
    for phase in 1u16..100 {
        assert_eq!(
            scaled_sample(50 + (phase % 50), 100, 16384),
            -scaled_sample(50 - (phase % 50), 100, 16384)
        );
    }
}

#[test]
fn checked_sample_accepts_what_next_sample_accepts() {
    for phase in 0u16..100 {
        assert_eq!(checked_sample(phase, 100), Ok(next_sample(phase, 100)));
    }
}

#[test]
fn checked_sample_rejects_a_period_under_two() {
    assert_eq!(checked_sample(0, 0), Err(WaveformError::PeriodTooSmall));
    assert_eq!(checked_sample(0, 1), Err(WaveformError::PeriodTooSmall));
    assert_eq!(checked_sample(5, 1), Err(WaveformError::PeriodTooSmall));
}

#[test]
fn checked_sample_rejects_an_odd_period() {
    assert_eq!(checked_sample(0, 3), Err(WaveformError::OddPeriod));
    assert_eq!(checked_sample(500, 437), Err(WaveformError::OddPeriod));
}

#[test]
fn checked_sample_rejects_a_phase_outside_the_period() {
    assert_eq!(checked_sample(2, 2), Err(WaveformError::PhaseOutOfRange));
    assert_eq!(checked_sample(436, 436), Err(WaveformError::PhaseOutOfRange));
    assert_eq!(checked_sample(65535, 65534), Err(WaveformError::PhaseOutOfRange));
}

#[test]
fn code_words_keep_the_bits_of_the_sample() {
    assert_eq!(to_code_word(0), 0);
    assert_eq!(to_code_word(1), 1);
    assert_eq!(to_code_word(32767), 0x7fff);
    assert_eq!(to_code_word(-1), 0xffff);
    assert_eq!(to_code_word(-32767), 32769);
    assert_eq!(to_code_word(-16384), 0xC000);
    assert_eq!(to_code_word(-32768), 0x8000);
    assert_eq!(to_code_word(-32111).to_ne_bytes(), (-32111i16).to_ne_bytes());
}
