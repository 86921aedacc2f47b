//! The phase counter: the position inside the waveform's period, advanced
//! once per stereo frame and wrapped to zero at the period.

use vstd::prelude::*;
use crate::waveform::{next_sample, sample_value, valid_period, WaveformError};

verus! {

/// The mathematical value of a phase counter.
pub struct Phase {
    /// The position inside the period.
    pub index: int,
    /// The number of samples in one cycle of the waveform.
    pub period: int,
}

impl Phase {
    /// The period is even, at least two and fits sixteen bits, and the index
    /// lies inside it.
    pub open spec fn valid(self) -> bool {
        &&& valid_period(self.period)
        &&& self.period <= u16::MAX
        &&& 0 <= self.index < self.period
    }

    /// The phase one stereo frame later.
    pub open spec fn next(self) -> Phase {
        Phase { index: (self.index + 1) % self.period, period: self.period }
    }

    /// The phase `frames` stereo frames later.
    pub open spec fn advanced(self, frames: nat) -> Phase
        decreases frames,
    {
        if frames == 0 {
            self
        } else {
            self.advanced((frames - 1) as nat).next()
        }
    }

    /// The amplitude of the tone at this phase.
    pub open spec fn sample(self) -> int {
        sample_value(self.index, self.period)
    }

    /// One frame moves the index by exactly one place: to its successor, or
    /// from the last place of the period to zero. It never stays and never
    /// skips.
    pub proof fn lemma_next_moves_one(self)
        requires
            self.valid(),
        ensures
            self.next().valid(),
            self.next().period == self.period,
            self.index + 1 < self.period ==> self.next().index == self.index + 1,
            self.index + 1 == self.period ==> self.next().index == 0,
            self.next().index != self.index,
            self.next().index != (self.index + 2) % self.period,
    {
        let p = self.period;
        let i = self.index;
        if i + 1 < p {
            vstd::arithmetic::div_mod::lemma_small_mod((i + 1) as nat, p as nat);
            if i + 2 < p {
                vstd::arithmetic::div_mod::lemma_small_mod((i + 2) as nat, p as nat);
            } else {
                vstd::arithmetic::div_mod::lemma_mod_self_0(p);
            }
        } else {
            vstd::arithmetic::div_mod::lemma_mod_self_0(p);
            assert(i + 2 == p + 1);
            vstd::arithmetic::div_mod::lemma_mod_add_multiples_vanish(1, p);
            vstd::arithmetic::div_mod::lemma_small_mod(1, p as nat);
        }
    }

    /// After `frames` frames the index is the old index plus `frames`, taken
    /// modulo the period.
    pub proof fn lemma_advanced_index(self, frames: nat)
        requires
            self.valid(),
        ensures
            self.advanced(frames).valid(),
            self.advanced(frames).period == self.period,
            self.advanced(frames).index == (self.index + frames) % self.period,
        decreases frames,
    {
        let p = self.period;
        if frames == 0 {
            vstd::arithmetic::div_mod::lemma_small_mod(self.index as nat, p as nat);
        } else {
            let before = self.advanced((frames - 1) as nat);
            self.lemma_advanced_index((frames - 1) as nat);
            before.lemma_next_moves_one();
            vstd::arithmetic::div_mod::lemma_add_mod_noop(self.index + frames - 1, 1, p);
            vstd::arithmetic::div_mod::lemma_mod_twice(self.index + frames - 1, p);
            vstd::arithmetic::div_mod::lemma_add_mod_noop(before.index, 1, p);
        }
    }

    /// After exactly one period of frames, and after any whole number of
    /// periods, the counter is back where it started.
    pub proof fn lemma_whole_periods_return(self, frames: nat)
        requires
            self.valid(),
            frames % (self.period as nat) == 0,
        ensures
            self.advanced(frames) == self,
            self.advanced(self.period as nat) == self,
    {
        let p = self.period;
        self.lemma_advanced_index(frames);
        self.lemma_advanced_index(p as nat);
        vstd::arithmetic::div_mod::lemma_add_mod_noop(self.index, frames as int, p);
        vstd::arithmetic::div_mod::lemma_mod_self_0(p);
        vstd::arithmetic::div_mod::lemma_add_mod_noop(self.index, p, p);
        vstd::arithmetic::div_mod::lemma_small_mod(self.index as nat, p as nat);
        vstd::arithmetic::div_mod::lemma_mod_twice(self.index, p);
    }

    /// Inside one period no index comes twice: two different numbers of
    /// frames, both under the period, lead to different places.
    pub proof fn lemma_no_repeat_within_period(self, fewer: nat, more: nat)
        requires
            self.valid(),
            fewer < more < self.period,
        ensures
            self.advanced(fewer).index != self.advanced(more).index,
    {
        let p = self.period;
        self.lemma_advanced_index(fewer);
        self.lemma_advanced_index(more);
        let a = self.index + fewer;
        let b = self.index + more;
        if a % p == b % p {
            vstd::arithmetic::div_mod::lemma_fundamental_div_mod(a, p);
            vstd::arithmetic::div_mod::lemma_fundamental_div_mod(b, p);
            let qa = a / p;
            let qb = b / p;
            assert(b - a == p * (qb - qa)) by (nonlinear_arith)
                requires
                    a == p * qa + a % p,
                    b == p * qb + b % p,
                    a % p == b % p,
            ;
            assert(false) by (nonlinear_arith)
                requires
                    0 < b - a < p,
                    b - a == p * (qb - qa),
            ;
        }
    }
}

/// A phase counter for a waveform of a fixed, valid period.
pub struct PhaseCounter {
    value: u16,
    period: u16,
}

impl View for PhaseCounter {
    type V = Phase;

    closed spec fn view(&self) -> Phase {
        Phase { index: self.value as int, period: self.period as int }
    }
}

impl PhaseCounter {
    #[verifier::type_invariant]
    spec fn inv(self) -> bool {
        self@.valid()
    }

    /// A counter at zero for `period`, or the reason why the period is
    /// turned down: under two, or odd.
    pub fn new(period: u16) -> (result: Result<PhaseCounter, WaveformError>)
        ensures
            period < 2 ==> result is Err && result->Err_0 == WaveformError::PeriodTooSmall,
            period >= 2 && period % 2 != 0 ==> result is Err && result->Err_0
                == WaveformError::OddPeriod,
            valid_period(period as int) ==> result is Ok && result->Ok_0@ == (Phase {
                index: 0,
                period: period as int,
            }),
    {
        if period < 2 {
            Err(WaveformError::PeriodTooSmall)
        } else if period % 2 != 0 {
            Err(WaveformError::OddPeriod)
        } else {
            Ok(PhaseCounter { value: 0, period })
        }
    }

    /// The position inside the period.
    pub fn value(&self) -> (value: u16)
        ensures
            value == self@.index,
            self@.valid(),
    {
        proof {
            use_type_invariant(self);
        }
        self.value
    }

    /// The number of samples in one cycle.
    pub fn period(&self) -> (period: u16)
        ensures
            period == self@.period,
            self@.valid(),
    {
        proof {
            use_type_invariant(self);
        }
        self.period
    }

    /// The amplitude of the tone at the current phase.
    pub fn sample(&self) -> (sample: i16)
        ensures
            sample == self@.sample(),
    {
        proof {
            use_type_invariant(self);
        }
        next_sample(self.value, self.period)
    }

    /// Moves the counter on by one stereo frame, wrapping to zero at the
    /// period.
    pub fn advance(&mut self)
        ensures
            final(self)@ == old(self)@.next(),
            final(self)@.valid(),
        no_unwind
    {
        proof {
            use_type_invariant(&*self);
            self@.lemma_next_moves_one();
        }
        let following: u16 = if self.value == self.period - 1 {
            0
        } else {
            self.value + 1
        };
        self.value = following;
    }
}

} // verus!
