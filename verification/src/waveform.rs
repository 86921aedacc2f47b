//! The sawtooth waveform: a linear ramp over one period, centred at zero,
//! that falls back to its lowest value where the period wraps.

use vstd::prelude::*;

verus! {

/// The amplitude ceiling of the generated tone: the largest signed 16-bit value.
pub const MAX_AMPLITUDE: i16 = 32767;

/// A period is usable when it is even and holds at least two samples.
pub open spec fn valid_period(period: int) -> bool {
    period >= 2 && period % 2 == 0
}

/// The size of the ramp at `distance` places from the middle of the period:
/// the distance times the ceiling, divided by half the period, rounded down.
/// It is meant for a distance that is not negative.
pub open spec fn magnitude(distance: int, period: int, ceiling: int) -> int {
    (distance * ceiling) / (period / 2)
}

/// The ramp with an arbitrary ceiling: the distance of `phase` from the
/// middle of the period, times the ceiling, divided by half the period. The
/// product is taken first, and the quotient is rounded toward zero: below the
/// middle the sample is the negated size of the ramp at the same distance
/// above it.
pub open spec fn sawtooth(phase: int, period: int, ceiling: int) -> int {
    let distance = phase - period / 2;
    if distance >= 0 {
        magnitude(distance, period, ceiling)
    } else {
        -magnitude(-distance, period, ceiling)
    }
}

/// The amplitude of the tone at `phase`: the ramp under [`MAX_AMPLITUDE`].
pub open spec fn sample_value(phase: int, period: int) -> int {
    sawtooth(phase, period, MAX_AMPLITUDE as int)
}

/// The code-word that carries `sample` on the wire: the same sixteen bits,
/// read as an unsigned number.
pub open spec fn code_word(sample: int) -> int {
    if sample >= 0 {
        sample
    } else {
        sample + 0x1_0000
    }
}

/// Why a request for a sample was turned down.
#[derive(Clone, Copy, Debug, PartialEq, Eq, Structural)]
pub enum WaveformError {
    /// The period holds fewer than two samples.
    PeriodTooSmall,
    /// The period is odd, so the ramp would not be centred.
    OddPeriod,
    /// The phase does not lie inside the period.
    PhaseOutOfRange,
}

/// What [`checked_sample`] returns for each pair of arguments.
pub open spec fn checked_sample_value(phase: int, period: int) -> Result<int, WaveformError> {
    if period < 2 {
        Err(WaveformError::PeriodTooSmall)
    } else if period % 2 != 0 {
        Err(WaveformError::OddPeriod)
    } else if phase >= period {
        Err(WaveformError::PhaseOutOfRange)
    } else {
        Ok(sample_value(phase, period))
    }
}

/// The size of the ramp lies between zero and the ceiling, is zero in the
/// middle of the period and is the ceiling half a period away from it. It is
/// the exact quotient rounded down: less than one below it.
pub proof fn lemma_magnitude_bounds(distance: int, period: int, ceiling: int)
    requires
        valid_period(period),
        0 <= distance <= period / 2,
        ceiling >= 0,
    ensures
        0 <= magnitude(distance, period, ceiling) <= ceiling,
        distance == 0 ==> magnitude(distance, period, ceiling) == 0,
        distance == period / 2 ==> magnitude(distance, period, ceiling) == ceiling,
        magnitude(distance, period, ceiling) * (period / 2) <= distance * ceiling < (magnitude(
            distance,
            period,
            ceiling,
        ) + 1) * (period / 2),
{
    let half = period / 2;
    let product = distance * ceiling;
    let quotient = product / half;
    assert(half >= 1);
    vstd::arithmetic::mul::lemma_mul_inequality(0, distance, ceiling);
    vstd::arithmetic::mul::lemma_mul_inequality(distance, half, ceiling);
    assert(0 <= product <= half * ceiling);
    vstd::arithmetic::div_mod::lemma_div_pos_is_pos(product, half);
    vstd::arithmetic::div_mod::lemma_div_is_ordered(product, half * ceiling, half);
    vstd::arithmetic::div_mod::lemma_div_multiples_vanish(ceiling, half);
    vstd::arithmetic::div_mod::lemma_fundamental_div_mod(product, half);
    vstd::arithmetic::div_mod::lemma_mod_bound(product, half);
    assert(quotient * half <= product < (quotient + 1) * half) by (nonlinear_arith)
        requires
            product == half * quotient + product % half,
            0 <= product % half < half,
    ;
    if distance == 0 {
        assert(product == 0);
    }
}

/// Further from the middle the ramp is at least as large, and larger where
/// the ceiling is at least half the period.
pub proof fn lemma_magnitude_monotonic(nearer: int, further: int, period: int, ceiling: int)
    requires
        valid_period(period),
        0 <= nearer <= further,
        ceiling >= 0,
    ensures
        magnitude(nearer, period, ceiling) <= magnitude(further, period, ceiling),
        nearer < further && ceiling >= period / 2 ==> magnitude(nearer, period, ceiling)
            < magnitude(further, period, ceiling),
{
    let half = period / 2;
    assert(half >= 1);
    vstd::arithmetic::mul::lemma_mul_inequality(nearer, further, ceiling);
    vstd::arithmetic::div_mod::lemma_div_is_ordered(nearer * ceiling, further * ceiling, half);
    if nearer < further && ceiling >= half {
        assert(half + nearer * ceiling <= further * ceiling) by (nonlinear_arith)
            requires
                nearer + 1 <= further,
                0 <= half <= ceiling,
        ;
        vstd::arithmetic::div_mod::lemma_div_plus_one(nearer * ceiling, half);
        vstd::arithmetic::div_mod::lemma_div_is_ordered(
            half + nearer * ceiling,
            further * ceiling,
            half,
        );
    }
}

/// Every sample of the ramp lies between the negated ceiling and the ceiling.
/// The first sample of a period is the negated ceiling, and the sample in the
/// middle is zero.
pub proof fn lemma_sawtooth_in_range(phase: int, period: int, ceiling: int)
    requires
        valid_period(period),
        0 <= phase < period,
        ceiling >= 0,
    ensures
        -ceiling <= sawtooth(phase, period, ceiling) <= ceiling,
        sawtooth(0, period, ceiling) == -ceiling,
        sawtooth(period / 2, period, ceiling) == 0,
{
    let half = period / 2;
    if phase >= half {
        lemma_magnitude_bounds(phase - half, period, ceiling);
    } else {
        lemma_magnitude_bounds(half - phase, period, ceiling);
    }
    lemma_magnitude_bounds(half, period, ceiling);
    lemma_magnitude_bounds(0, period, ceiling);
}

/// The ramp is linear up to rounding: times half the period, a sample
/// differs from the distance times the ceiling by less than half a period,
/// and lies on the side of zero.
pub proof fn lemma_sawtooth_follows_ramp(phase: int, period: int, ceiling: int)
    requires
        valid_period(period),
        0 <= phase < period,
        ceiling >= 0,
    ensures
        ({
            let half = period / 2;
            let exact = (phase - half) * ceiling;
            let scaled = sawtooth(phase, period, ceiling) * half;
            &&& phase >= half ==> exact - half < scaled <= exact
            &&& phase < half ==> exact <= scaled < exact + half
        }),
{
    let half = period / 2;
    if phase >= half {
        lemma_magnitude_bounds(phase - half, period, ceiling);
        let m = magnitude(phase - half, period, ceiling);
        assert((m + 1) * half == m * half + half) by (nonlinear_arith);
    } else {
        lemma_magnitude_bounds(half - phase, period, ceiling);
        let m = magnitude(half - phase, period, ceiling);
        assert((m + 1) * half == m * half + half) by (nonlinear_arith);
        assert((-m) * half == -(m * half)) by (nonlinear_arith);
        assert((phase - half) * ceiling == -((half - phase) * ceiling)) by (nonlinear_arith);
    }
}

/// Inside one period the ramp never falls: a later phase has an amplitude at
/// least as large, and a larger one where the ceiling is at least half the
/// period.
pub proof fn lemma_sawtooth_monotonic(earlier: int, later: int, period: int, ceiling: int)
    requires
        valid_period(period),
        0 <= earlier <= later < period,
        ceiling >= 0,
    ensures
        sawtooth(earlier, period, ceiling) <= sawtooth(later, period, ceiling),
        earlier < later && ceiling >= period / 2 ==> sawtooth(earlier, period, ceiling) < sawtooth(
            later,
            period,
            ceiling,
        ),
{
    let half = period / 2;
    if earlier >= half {
        lemma_magnitude_monotonic(earlier - half, later - half, period, ceiling);
    } else if later < half {
        lemma_magnitude_monotonic(half - later, half - earlier, period, ceiling);
    } else {
        lemma_magnitude_bounds(half - earlier, period, ceiling);
        lemma_magnitude_bounds(later - half, period, ceiling);
        lemma_magnitude_bounds(0, period, ceiling);
        lemma_magnitude_monotonic(0, half - earlier, period, ceiling);
    }
}

/// Inside one period the tone rises with every phase.
pub proof fn lemma_sample_monotonic(earlier: u16, later: u16, period: u16)
    requires
        valid_period(period as int),
        earlier <= later < period,
    ensures
        sample_value(earlier as int, period as int) <= sample_value(later as int, period as int),
        earlier < later ==> sample_value(earlier as int, period as int) < sample_value(
            later as int,
            period as int,
        ),
{
    assert(period as int / 2 <= MAX_AMPLITUDE);
    lemma_sawtooth_monotonic(earlier as int, later as int, period as int, MAX_AMPLITUDE as int);
}

/// Going once round the period, the tone falls at exactly one place: from the
/// last phase back to the first.
pub proof fn lemma_single_descent(phase: u16, period: u16)
    requires
        valid_period(period as int),
        phase < period,
    ensures
        sample_value((phase + 1) % (period as int), period as int) < sample_value(
            phase as int,
            period as int,
        ) <==> phase == period - 1,
{
    if phase == period - 1 {
        vstd::arithmetic::div_mod::lemma_mod_self_0(period as int);
        lemma_sample_monotonic(0, phase, period);
    } else {
        vstd::arithmetic::div_mod::lemma_small_mod((phase + 1) as nat, period as nat);
        lemma_sample_monotonic(phase, (phase + 1) as u16, period);
    }
}

/// The shape of the wrap: the first sample of a period is the negated
/// ceiling, the middle sample is zero, and with at least four samples in a
/// period the last sample is positive, so that the wrap is a fall of more
/// than the ceiling.
pub proof fn lemma_wrap_shape(period: u16)
    requires
        valid_period(period as int),
    ensures
        sample_value(0, period as int) == -MAX_AMPLITUDE,
        sample_value(period as int / 2, period as int) == 0,
        0 <= sample_value(period - 1, period as int) <= MAX_AMPLITUDE,
        period >= 4 ==> sample_value(period - 1, period as int) > 0,
        period >= 4 ==> sample_value(0, period as int) - sample_value(period - 1, period as int)
            < -MAX_AMPLITUDE,
{
    lemma_sawtooth_in_range(period - 1, period as int, MAX_AMPLITUDE as int);
    lemma_sample_monotonic((period / 2) as u16, (period - 1) as u16, period);
}

/// The ramp is not the mirror image of itself half a period later: the first
/// sample is negative, and the sample half a period on is zero, not its
/// negation.
pub proof fn lemma_half_period_is_no_mirror(period: u16)
    requires
        valid_period(period as int),
    ensures
        sample_value(0, period as int) != -sample_value(
            (0 + period as int / 2) % (period as int),
            period as int,
        ),
{
    lemma_wrap_shape(period);
    vstd::arithmetic::div_mod::lemma_small_mod((period as int / 2) as nat, period as nat);
}

/// The tone has no hidden state: whatever two calls of [`next_sample`] with
/// the same arguments return, the two results are equal.
pub proof fn lemma_same_arguments_same_sample(first: i16, second: i16, phase: u16, period: u16)
    requires
        first == sample_value(phase as int, period as int),
        second == sample_value(phase as int, period as int),
    ensures
        first == second,
{
}

/// Whether `period` is even and at least two.
pub fn is_valid_period(period: u16) -> (ok: bool)
    ensures
        ok == valid_period(period as int),
{
    period >= 2 && period % 2 == 0
}

/// The sample of the ramp under `ceiling` at `phase`: from the negated
/// ceiling at phase zero through zero in the middle of the period up to one
/// step under the ceiling.
///
/// The period must be valid and hold the phase; the ceiling must not be
/// negative.
pub fn scaled_sample(phase: u16, period: u16, ceiling: i16) -> (sample: i16)
    requires
        valid_period(period as int),
        phase < period,
        ceiling >= 0,
    ensures
        sample == sawtooth(phase as int, period as int, ceiling as int),
{
    let half: u16 = period / 2;
    let scale: u32 = ceiling as u32;
    if phase >= half {
        let distance: u32 = (phase - half) as u32;
        proof {
            lemma_magnitude_bounds(distance as int, period as int, ceiling as int);
            assert(distance * scale <= 32767 * 32767) by (nonlinear_arith)
                requires
                    distance <= 32767,
                    scale <= 32767,
            ;
        }
        let size: u32 = distance * scale / (half as u32);
        size as i16
    } else {
        let distance: u32 = (half - phase) as u32;
        proof {
            lemma_magnitude_bounds(distance as int, period as int, ceiling as int);
            assert(distance * scale <= 32767 * 32767) by (nonlinear_arith)
                requires
                    distance <= 32767,
                    scale <= 32767,
            ;
        }
        let size: u32 = distance * scale / (half as u32);
        -(size as i16)
    }
}

/// The amplitude of the tone at `phase`, for a valid period that holds the
/// phase. The result depends on the two arguments alone.
pub fn next_sample(phase: u16, period: u16) -> (sample: i16)
    requires
        valid_period(period as int),
        phase < period,
    ensures
        sample == sample_value(phase as int, period as int),
{
    scaled_sample(phase, period, MAX_AMPLITUDE)
}

/// The amplitude of the tone at `phase`, or the reason why there is none:
/// a period under two, an odd period, or a phase outside the period, tested
/// in this order.
pub fn checked_sample(phase: u16, period: u16) -> (result: Result<i16, WaveformError>)
    ensures
        match checked_sample_value(phase as int, period as int) {
            Ok(value) => result == Ok::<i16, WaveformError>(value as i16) && value == value as i16,
            Err(e) => result == Err::<i16, WaveformError>(e),
        },
{
    if period < 2 {
        Err(WaveformError::PeriodTooSmall)
    } else if period % 2 != 0 {
        Err(WaveformError::OddPeriod)
    } else if phase >= period {
        Err(WaveformError::PhaseOutOfRange)
    } else {
        proof {
            lemma_sawtooth_in_range(phase as int, period as int, MAX_AMPLITUDE as int);
        }
        Ok(next_sample(phase, period))
    }
}

/// The code-word for `sample`: its sixteen bits, unchanged.
pub fn to_code_word(sample: i16) -> (word: u16)
    ensures
        word == code_word(sample as int),
{
    let word: u16 = #[verifier::truncate]
    (sample as u16);
    assert(word == code_word(sample as int)) by (bit_vector)
        requires
            word == sample as u16,
    ;
    word
}

} // verus!
