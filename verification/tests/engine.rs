use i2s_tone::engine::{Channel, DeliveryEngine, ErrorFlags, Outcome, Status, Step};
use i2s_tone::waveform::{next_sample, to_code_word, WaveformError};

const QUIET: ErrorFlags = ErrorFlags { frame_error: false, overrun: false, underrun: false };

const UNDERRUN: ErrorFlags = ErrorFlags { frame_error: false, overrun: false, underrun: true };

fn engine(period: u16) -> DeliveryEngine {
    match DeliveryEngine::new(period) {
        Ok(engine) => engine,
        Err(e) => panic!("period {} was turned down: {:?}", period, e),
    }
}

fn empty(side: Channel) -> Status {
    Status { errors: QUIET, tx_empty: true, side }
}

fn busy(side: Channel) -> Status {
    Status { errors: QUIET, tx_empty: false, side }
}

#[test]
fn engine_starts_at_phase_zero() {
    let e = engine(436);
    assert_eq!(e.phase(), 0);
    assert_eq!(e.period(), 436);
}

#[test]
fn engine_turns_down_invalid_periods() {
    assert!(matches!(DeliveryEngine::new(0), Err(WaveformError::PeriodTooSmall)));
    assert!(matches!(DeliveryEngine::new(1), Err(WaveformError::PeriodTooSmall)));
    assert!(matches!(DeliveryEngine::new(435), Err(WaveformError::OddPeriod)));
}

#[test]
fn busy_transmitter_gets_no_word_and_keeps_the_phase() {
    let mut e = engine(100);
    for side in [Channel::Left, Channel::Right] {
        let outcome: Outcome = e.service(busy(side));
        assert_eq!(outcome.step, Step::WaitTxReady);
        assert_eq!(outcome.step.word(), None);
        assert_eq!(outcome.report, QUIET);
        assert_eq!(e.phase(), 0);
    }
}

#[test]
fn left_word_is_written_without_moving_the_phase() {
    let mut e = engine(100);
    let outcome = e.service(empty(Channel::Left));
    assert_eq!(outcome.step, Step::WriteLeft { word: 32769 });
    assert_eq!(outcome.step.word(), Some(32769));
    assert_eq!(e.phase(), 0);
}

#[test]
fn right_word_completes_the_frame_and_moves_the_phase() {
    let mut e = engine(100);
    let outcome = e.service(empty(Channel::Right));
    assert_eq!(outcome.step, Step::WriteRight { word: 32769 });
    assert_eq!(e.phase(), 1);
    let outcome = e.service(empty(Channel::Right));
    assert_eq!(outcome.step, Step::WriteRight { word: to_code_word(-32111) });
    assert_eq!(e.phase(), 2);
}

#[test]
fn left_and_right_words_of_every_frame_are_equal() {
    let period: u16 = 436;
    let mut e = engine(period);
    for frame in 0u32..(2 * 436 + 5) {
        let phase: u16 = e.phase();
        assert_eq!(u32::from(phase), frame % 436);
        let left = e.service(empty(Channel::Left));
        assert_eq!(e.phase(), phase);
        let right = e.service(empty(Channel::Right));
        assert_eq!(e.phase(), (phase + 1) % period);
        let word: u16 = to_code_word(next_sample(phase, period));
        assert_eq!(left.step, Step::WriteLeft { word });
        assert_eq!(right.step, Step::WriteRight { word });
        assert_eq!(left.step.word(), right.step.word());
    }
}

#[test]
fn phase_returns_after_436_frames() {
    let mut e = engine(436);
    let mut advances: u32 = 0;
    for _ in 0u16..436 {
        let before: u16 = e.phase();
        e.service(empty(Channel::Left));
        e.service(empty(Channel::Right));
        assert_ne!(e.phase(), before);
        advances += 1;
    }
    assert_eq!(advances % 436, 0);
    assert_eq!(e.phase(), 0);
}

#[test]
fn phase_returns_to_any_start_after_one_period_of_frames() {
    let mut e = engine(100);
    for _ in 0u16..37 {
        e.service(empty(Channel::Right));
    }
    assert_eq!(e.phase(), 37);
    for _ in 0u16..100 {
        e.service(empty(Channel::Left));
        e.service(empty(Channel::Right));
    }
    assert_eq!(e.phase(), 37);
}

#[test]
fn underrun_is_reported_and_delivery_goes_on() {
    let mut disturbed = engine(100);
    let mut clean = engine(100);
    for frame in 0u16..250 {
        let errors = if frame % 3 == 0 { UNDERRUN } else { QUIET };
        for side in [Channel::Left, Channel::Right] {
            let a = disturbed.service(Status { errors, tx_empty: true, side });
            let b = clean.service(empty(side));
            assert_eq!(a.report, errors);
            assert_eq!(b.report, QUIET);
            assert_eq!(a.step, b.step);
            assert!(a.step.word().is_some());
        }
        assert_eq!(disturbed.phase(), clean.phase());
        assert_eq!(disturbed.phase(), (frame + 1) % 100);
    }
}

#[test]
fn every_error_condition_is_handed_back_as_it_came() {
    let mut e = engine(100);
    for bits in 0u8..8 {
        let errors = ErrorFlags {
            frame_error: bits & 1 != 0,
            overrun: bits & 2 != 0,
            underrun: bits & 4 != 0,
        };
        assert_eq!(errors.is_clear(), bits == 0);
        let waiting = e.service(Status { errors, tx_empty: false, side: Channel::Left });
        assert_eq!(waiting, Outcome { report: errors, step: Step::WaitTxReady });
        let writing = e.service(Status { errors, tx_empty: true, side: Channel::Left });
        assert_eq!(writing.report, errors);
        assert_eq!(writing.step, Step::WriteLeft { word: 32769 });
    }
}

#[test]
fn polling_and_interrupt_delivery_write_the_same_words() {
    let period: u16 = 100;
    let mut polled = engine(period);
    let mut interrupted = engine(period);
    let mut polled_words: Vec<u16> = Vec::new();
    let mut interrupt_words: Vec<u16> = Vec::new();
    for frame in 0u16..300 {
        for side in [Channel::Left, Channel::Right] {
            // the polling loop finds the transmitter busy a few times first
            for _ in 0u16..(frame % 4) {
                assert_eq!(polled.service(busy(side)).step, Step::WaitTxReady);
            }
            if let Some(word) = polled.service(empty(side)).step.word() {
                polled_words.push(word);
            }
            if let Some(word) = interrupted.service(empty(side)).step.word() {
                interrupt_words.push(word);
            }
        }
    }
    assert_eq!(polled_words.len(), 600);
    assert_eq!(polled_words, interrupt_words);
    for (k, word) in polled_words.iter().enumerate() {
        let phase = ((k / 2) % 100) as u16;
        assert_eq!(*word, to_code_word(next_sample(phase, period)));
    }
    assert_eq!(polled.phase(), interrupted.phase());
}

#[test]
fn wrap_writes_the_last_word_twice_and_then_the_lowest() {
    let mut e = engine(100);
    for _ in 0u16..99 {
        e.service(empty(Channel::Right));
    }
    assert_eq!(e.phase(), 99);
    let left = e.service(empty(Channel::Left));
    assert_eq!(left.step, Step::WriteLeft { word: 32111 });
    assert_eq!(e.phase(), 99);
    let right = e.service(empty(Channel::Right));
    assert_eq!(right.step, Step::WriteRight { word: 32111 });
    assert_eq!(e.phase(), 0);
    let next = e.service(empty(Channel::Left));
    assert_eq!(next.step, Step::WriteLeft { word: to_code_word(-32767) });
    assert_eq!(e.phase(), 0);
}
