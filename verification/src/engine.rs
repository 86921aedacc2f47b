//! The sample delivery engine: what one service of the transmitter does.
//!
//! A service opportunity is one pass of the polling loop or one firing of the
//! transmitter's interrupt. The caller takes one snapshot of the status
//! register, hands it to [`DeliveryEngine::service`], and performs what comes
//! back: it reports the errors and, if there is a code-word, writes it to the
//! data register. The engine alone owns the phase counter.

use vstd::prelude::*;
use crate::phase::{Phase, PhaseCounter};
use crate::waveform::{code_word, lemma_sawtooth_in_range, to_code_word, WaveformError, MAX_AMPLITUDE};

verus! {

/// The side of the stereo frame that the transmitter's channel-side flag
/// names.
#[derive(Clone, Copy, Debug, PartialEq, Eq, Structural)]
pub enum Channel {
    /// The first word of a frame.
    Left,
    /// The second word of a frame, which completes it.
    Right,
}

/// The three error conditions of the transmitter, as one snapshot saw them.
#[derive(Clone, Copy, Debug, PartialEq, Eq, Structural)]
pub struct ErrorFlags {
    /// Frame synchronisation was lost.
    pub frame_error: bool,
    /// Data arrived faster than it was taken.
    pub overrun: bool,
    /// The transmitter needed a word and found none.
    pub underrun: bool,
}

/// One snapshot of the transmitter's status register.
#[derive(Clone, Copy, Debug, PartialEq, Eq, Structural)]
pub struct Status {
    /// The error conditions.
    pub errors: ErrorFlags,
    /// The transmitter can take a new code-word.
    pub tx_empty: bool,
    /// The channel-side flag.
    pub side: Channel,
}

/// What the engine does with a service opportunity.
#[derive(Clone, Copy, Debug, PartialEq, Eq, Structural)]
pub enum Step {
    /// The transmitter cannot take a word: nothing is written.
    WaitTxReady,
    /// `word` goes to the data register as the left word of the frame.
    WriteLeft { word: u16 },
    /// `word` goes to the data register as the right word of the frame, and
    /// the frame is complete.
    WriteRight { word: u16 },
}

/// The result of one service: the errors to report and the step to perform.
#[derive(Clone, Copy, Debug, PartialEq, Eq, Structural)]
pub struct Outcome {
    /// The error conditions that the snapshot held, each to be reported once.
    pub report: ErrorFlags,
    /// What to do with the data register.
    pub step: Step,
}

impl ErrorFlags {
    /// No error condition is set.
    pub open spec fn clear(self) -> bool {
        !self.frame_error && !self.overrun && !self.underrun
    }

    /// Whether no error condition is set.
    pub fn is_clear(&self) -> (clear: bool)
        ensures
            clear == self.clear(),
    {
        !self.frame_error && !self.overrun && !self.underrun
    }
}

impl Step {
    /// The code-words that this step puts on the wire: one or none.
    pub open spec fn words(self) -> Seq<u16> {
        match self {
            Step::WaitTxReady => Seq::empty(),
            Step::WriteLeft { word } => seq![word],
            Step::WriteRight { word } => seq![word],
        }
    }

    /// The code-word to write, if this step writes one.
    pub fn word(&self) -> (word: Option<u16>)
        ensures
            word is Some <==> self.words().len() == 1,
            word is Some ==> self.words() == seq![word->Some_0],
            word is None <==> *self == Step::WaitTxReady,
    {
        match self {
            Step::WaitTxReady => None,
            Step::WriteLeft { word } => Some(*word),
            Step::WriteRight { word } => Some(*word),
        }
    }
}

/// The code-word of the tone at `phase`.
pub open spec fn word_at(phase: Phase) -> u16 {
    code_word(phase.sample()) as u16
}

/// One service opportunity, as a function from the phase and the snapshot to
/// the next phase and the outcome.
///
/// The errors of the snapshot are reported whatever else holds. While the
/// transmitter is not empty nothing is written and the phase stays. When it
/// is empty, the word of the current phase is written for the side that the
/// snapshot names, and the phase moves on after the right side only.
pub open spec fn service_step(phase: Phase, status: Status) -> (Phase, Outcome) {
    if !status.tx_empty {
        (phase, Outcome { report: status.errors, step: Step::WaitTxReady })
    } else {
        match status.side {
            Channel::Left => (
                phase,
                Outcome { report: status.errors, step: Step::WriteLeft { word: word_at(phase) } },
            ),
            Channel::Right => (
                phase.next(),
                Outcome { report: status.errors, step: Step::WriteRight { word: word_at(phase) } },
            ),
        }
    }
}

/// A snapshot completes a stereo frame when the transmitter is empty and the
/// channel-side flag names the right side.
pub open spec fn completes_frame(status: Status) -> bool {
    status.tx_empty && status.side == Channel::Right
}

/// The phase after a run of service opportunities, first snapshot first.
pub open spec fn phase_after(phase: Phase, run: Seq<Status>) -> Phase
    decreases run.len(),
{
    if run.len() == 0 {
        phase
    } else {
        service_step(phase_after(phase, run.drop_last()), run.last()).0
    }
}

/// The code-words that a run of service opportunities writes, in order.
pub open spec fn words_written(phase: Phase, run: Seq<Status>) -> Seq<u16>
    decreases run.len(),
{
    if run.len() == 0 {
        Seq::empty()
    } else {
        words_written(phase, run.drop_last()) + service_step(
            phase_after(phase, run.drop_last()),
            run.last(),
        ).1.step.words()
    }
}

/// The number of stereo frames that a run completes.
pub open spec fn frames_completed(run: Seq<Status>) -> nat
    decreases run.len(),
{
    if run.len() == 0 {
        0
    } else if completes_frame(run.last()) {
        frames_completed(run.drop_last()) + 1
    } else {
        frames_completed(run.drop_last())
    }
}

/// The run without the opportunities that found the transmitter busy.
pub open spec fn without_waits(run: Seq<Status>) -> Seq<Status>
    decreases run.len(),
{
    if run.len() == 0 {
        run
    } else if run.last().tx_empty {
        without_waits(run.drop_last()).push(run.last())
    } else {
        without_waits(run.drop_last())
    }
}

/// The run with every error condition taken out of every snapshot.
pub open spec fn without_errors(run: Seq<Status>) -> Seq<Status> {
    Seq::new(
        run.len(),
        |i: int|
            Status {
                errors: ErrorFlags { frame_error: false, overrun: false, underrun: false },
                tx_empty: run[i].tx_empty,
                side: run[i].side,
            },
    )
}

/// A run of `frames` whole stereo frames with nothing in between: left,
/// right, left, right, with the transmitter empty each time and no error.
pub open spec fn steady_run(frames: nat) -> Seq<Status> {
    Seq::new(
        2 * frames,
        |i: int|
            Status {
                errors: ErrorFlags { frame_error: false, overrun: false, underrun: false },
                tx_empty: true,
                side: if i % 2 == 0 {
                    Channel::Left
                } else {
                    Channel::Right
                },
            },
    )
}

/// Every word that goes out is a true 16-bit code-word of the sample.
pub proof fn lemma_word_at(phase: Phase)
    requires
        phase.valid(),
    ensures
        word_at(phase) == code_word(phase.sample()),
        -(MAX_AMPLITUDE as int) <= phase.sample() <= MAX_AMPLITUDE,
{
    lemma_sawtooth_in_range(phase.index, phase.period, MAX_AMPLITUDE as int);
}

/// One service keeps the phase valid and the period unchanged.
pub proof fn lemma_service_step_valid(phase: Phase, status: Status)
    requires
        phase.valid(),
    ensures
        service_step(phase, status).0.valid(),
        service_step(phase, status).0.period == phase.period,
{
    phase.lemma_next_moves_one();
}

/// The data register is written only after the snapshot has shown the
/// transmitter empty, and then always: a word goes out if and only if the
/// transmit-empty flag is set.
pub proof fn lemma_writes_only_when_empty(phase: Phase, status: Status)
    ensures
        service_step(phase, status).1.step.words().len() == (if status.tx_empty {
            1nat
        } else {
            0nat
        }),
        service_step(phase, status).1.step == Step::WaitTxReady <==> !status.tx_empty,
{
}

/// The two words of a frame are equal: a left service followed by a right
/// service writes the word of one and the same phase twice, and only then
/// has the phase moved, by exactly one place.
pub proof fn lemma_frame_pairs_channels(phase: Phase, left: Status, right: Status)
    requires
        phase.valid(),
        left.tx_empty && left.side == Channel::Left,
        right.tx_empty && right.side == Channel::Right,
    ensures
        ({
            let (between, first) = service_step(phase, left);
            let (after, second) = service_step(between, right);
            &&& first.step == Step::WriteLeft { word: word_at(phase) }
            &&& second.step == Step::WriteRight { word: word_at(phase) }
            &&& between == phase
            &&& after == phase.next()
            &&& after.index != phase.index
        }),
{
    phase.lemma_next_moves_one();
}

/// Errors are reported and change nothing else: whatever error conditions a
/// snapshot holds, the step and the next phase are those of the snapshot
/// without them. In particular an underrun never stops the engine from
/// writing the next word and moving the phase on.
pub proof fn lemma_errors_do_not_stop_delivery(phase: Phase, status: Status, errors: ErrorFlags)
    ensures
        ({
            let disturbed = Status { errors, tx_empty: status.tx_empty, side: status.side };
            &&& service_step(phase, disturbed).0 == service_step(phase, status).0
            &&& service_step(phase, disturbed).1.step == service_step(phase, status).1.step
            &&& service_step(phase, disturbed).1.report == errors
        }),
{
}

/// Over a whole run the errors change neither the words written nor the
/// phase reached.
pub proof fn lemma_run_ignores_errors(phase: Phase, run: Seq<Status>)
    ensures
        phase_after(phase, without_errors(run)) == phase_after(phase, run),
        words_written(phase, without_errors(run)) == words_written(phase, run),
        frames_completed(without_errors(run)) == frames_completed(run),
    decreases run.len(),
{
    if run.len() > 0 {
        lemma_run_ignores_errors(phase, run.drop_last());
        assert(without_errors(run).drop_last() =~= without_errors(run.drop_last()));
        lemma_errors_do_not_stop_delivery(
            phase_after(phase, run.drop_last()),
            without_errors(run).last(),
            run.last().errors,
        );
    }
}

/// The phase after a run is the phase at its start, moved on by the number
/// of frames that the run completed.
pub proof fn lemma_run_advances_by_frames(phase: Phase, run: Seq<Status>)
    requires
        phase.valid(),
    ensures
        phase_after(phase, run) == phase.advanced(frames_completed(run)),
        phase_after(phase, run).valid(),
    decreases run.len(),
{
    if run.len() > 0 {
        lemma_run_advances_by_frames(phase, run.drop_last());
        lemma_service_step_valid(phase_after(phase, run.drop_last()), run.last());
    }
}

/// After a run that completes exactly one period of frames, or any whole
/// number of periods, the phase is back at its starting value.
pub proof fn lemma_period_of_frames_returns(phase: Phase, run: Seq<Status>)
    requires
        phase.valid(),
        frames_completed(run) % (phase.period as nat) == 0,
    ensures
        phase_after(phase, run) == phase,
{
    lemma_run_advances_by_frames(phase, run);
    phase.lemma_whole_periods_return(frames_completed(run));
}

/// Polling and interrupt-driven delivery put the same words on the wire: the
/// opportunities on which the polling loop finds the transmitter busy write
/// nothing and leave the phase alone, so a run with them and the same run
/// without them agree.
pub proof fn lemma_waits_change_nothing(phase: Phase, run: Seq<Status>)
    ensures
        phase_after(phase, without_waits(run)) == phase_after(phase, run),
        words_written(phase, without_waits(run)) == words_written(phase, run),
    decreases run.len(),
{
    if run.len() > 0 {
        let head = run.drop_last();
        lemma_waits_change_nothing(phase, head);
        if run.last().tx_empty {
            let kept = without_waits(head).push(run.last());
            assert(kept.drop_last() =~= without_waits(head));
            assert(kept.last() == run.last());
        } else {
            assert(service_step(phase_after(phase, head), run.last()).1.step.words()
                =~= Seq::<u16>::empty());
            assert(words_written(phase, run) =~= words_written(phase, head));
        }
    }
}

/// A steady run of whole frames writes two words per frame, and the words of
/// frame `k` are both the word of the phase `k` frames after the start.
pub proof fn lemma_steady_run_words(phase: Phase, frames: nat)
    requires
        phase.valid(),
    ensures
        phase_after(phase, steady_run(frames)) == phase.advanced(frames),
        words_written(phase, steady_run(frames)).len() == 2 * frames,
        forall|k: int|
            0 <= k < frames ==> {
                &&& #[trigger] words_written(phase, steady_run(frames))[2 * k] == word_at(
                    phase.advanced(k as nat),
                )
                &&& words_written(phase, steady_run(frames))[2 * k + 1] == word_at(
                    phase.advanced(k as nat),
                )
            },
    decreases frames,
{
    if frames > 0 {
        let shorter = (frames - 1) as nat;
        let run = steady_run(frames);
        let left_run = run.drop_last();
        let head = left_run.drop_last();
        lemma_steady_run_words(phase, shorter);
        assert(head =~= steady_run(shorter));
        let start = phase.advanced(shorter);
        phase.lemma_advanced_index(shorter);
        lemma_frame_pairs_channels(start, left_run.last(), run.last());
        assert(phase_after(phase, left_run) == start);
        assert(words_written(phase, left_run) =~= words_written(phase, head).push(word_at(start)));
        assert(words_written(phase, run) =~= words_written(phase, head).push(word_at(start)).push(
            word_at(start),
        ));
        assert forall|k: int| 0 <= k < frames implies {
            &&& #[trigger] words_written(phase, run)[2 * k] == word_at(phase.advanced(k as nat))
            &&& words_written(phase, run)[2 * k + 1] == word_at(phase.advanced(k as nat))
        } by {
            if k < shorter {
                assert(words_written(phase, steady_run(shorter))[2 * k] == word_at(
                    phase.advanced(k as nat),
                ));
            }
        }
    } else {
        assert(steady_run(0) =~= Seq::<Status>::empty());
    }
}

/// The delivery engine: the phase counter and nothing else.
pub struct DeliveryEngine {
    phase: PhaseCounter,
}

impl View for DeliveryEngine {
    type V = Phase;

    closed spec fn view(&self) -> Phase {
        self.phase@
    }
}

impl DeliveryEngine {
    #[verifier::type_invariant]
    spec fn inv(self) -> bool {
        self.phase@.valid()
    }

    /// An engine at phase zero for a waveform of `period` samples, or the
    /// reason why the period is turned down: under two, or odd.
    pub fn new(period: u16) -> (result: Result<DeliveryEngine, WaveformError>)
        ensures
            period < 2 ==> result is Err && result->Err_0 == WaveformError::PeriodTooSmall,
            period >= 2 && period % 2 != 0 ==> result is Err && result->Err_0
                == WaveformError::OddPeriod,
            period >= 2 && period % 2 == 0 ==> result is Ok && result->Ok_0@ == (Phase {
                index: 0,
                period: period as int,
            }),
    {
        match PhaseCounter::new(period) {
            Ok(phase) => Ok(DeliveryEngine { phase }),
            Err(e) => Err(e),
        }
    }

    /// The current phase.
    pub fn phase(&self) -> (value: u16)
        ensures
            value == self@.index,
            self@.valid(),
    {
        self.phase.value()
    }

    /// The period of the waveform.
    pub fn period(&self) -> (period: u16)
        ensures
            period == self@.period,
            self@.valid(),
    {
        self.phase.period()
    }

    /// Serves one opportunity: reports the errors of the snapshot, and, if
    /// the transmitter is empty, hands out the word of the current phase for
    /// the side that the snapshot names, moving the phase on after the right
    /// side. Errors never stop the engine.
    pub fn service(&mut self, status: Status) -> (outcome: Outcome)
        ensures
            (final(self)@, outcome) == service_step(old(self)@, status),
            old(self)@.valid(),
            final(self)@.valid(),
    {
        proof {
            use_type_invariant(&*self);
            lemma_word_at(self@);
            lemma_service_step_valid(self@, status);
        }
        if !status.tx_empty {
            return Outcome { report: status.errors, step: Step::WaitTxReady };
        }
        let word: u16 = to_code_word(self.phase.sample());
        match status.side {
            Channel::Left => Outcome { report: status.errors, step: Step::WriteLeft { word } },
            Channel::Right => {
                self.phase.advance();
                Outcome { report: status.errors, step: Step::WriteRight { word } }
            },
        }
    }
}

} // verus!
