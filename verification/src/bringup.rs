//! Bring-up: the order in which the audio clock and the serial peripheral
//! are programmed before the first code-word goes out.
//!
//! The caller performs one operation after the other on the hardware and
//! asks [`Bringup::step`] for the next. The audio clock must be locked before
//! the peripheral is touched, and the peripheral is enabled last, so that no
//! transmission starts in the middle of its configuration.

use vstd::prelude::*;
use crate::config::{
    audio_format, configuration_mask, BitClock, FrameFormat, InterruptMask, PllConfig, ToneConfig,
};

verus! {

/// One operation on the hardware.
#[derive(Clone, Copy, Debug, PartialEq, Eq, Structural)]
pub enum Operation {
    /// Write the three numbers of the audio clock generator.
    ProgramPll(PllConfig),
    /// Switch the audio clock generator on.
    StartPll,
    /// Read the generator's ready bit, and come back with what it showed.
    AwaitLock,
    /// Connect data-out, word-select, bit-clock and master-clock to their
    /// pins.
    BindPins,
    /// Set which interrupt sources of the peripheral are let through.
    SetInterrupts(InterruptMask),
    /// Write the bit-clock divider and its odd bit.
    SetBitClock(BitClock),
    /// Switch the master-clock output on or off.
    SetMasterClockOutput(bool),
    /// Select audio mode with this frame format.
    SetFormat(FrameFormat),
    /// Let the transmit-empty interrupt through, or keep it masked.
    SetTxInterrupt(bool),
    /// Set the enable bit: from here on the peripheral asks for code-words.
    Enable,
}

impl Operation {
    /// The operation writes to the serial peripheral.
    pub open spec fn touches_peripheral(self) -> bool {
        match self {
            Operation::ProgramPll(_) => false,
            Operation::StartPll => false,
            Operation::AwaitLock => false,
            Operation::BindPins => false,
            _ => true,
        }
    }
}

/// The number of operations of a bring-up.
pub const PLAN_LENGTH: u8 = 10;

/// The place of [`Operation::AwaitLock`] in the plan.
pub const LOCK_POSITION: u8 = 2;

/// The operations of a bring-up, in the order in which they are performed.
pub open spec fn plan(config: ToneConfig) -> Seq<Operation> {
    seq![
        Operation::ProgramPll(config.pll),
        Operation::StartPll,
        Operation::AwaitLock,
        Operation::BindPins,
        Operation::SetInterrupts(configuration_mask()),
        Operation::SetBitClock(config.bit_clock),
        Operation::SetMasterClockOutput(config.master_clock_output),
        Operation::SetFormat(audio_format()),
        Operation::SetTxInterrupt(config.strategy.wants_tx_interrupt()),
        Operation::Enable,
    ]
}

/// The mathematical value of a bring-up: its configuration and the number of
/// operations that are behind it.
pub struct Progress {
    pub config: ToneConfig,
    pub position: nat,
}

impl Progress {
    /// The position does not pass the end of the plan.
    pub open spec fn valid(self) -> bool {
        self.position <= plan(self.config).len()
    }

    /// Every operation of the plan has been handed out.
    pub open spec fn finished(self) -> bool {
        self.position >= plan(self.config).len()
    }
}

/// One step of a bring-up, as a function from its progress and the ready bit
/// to the next progress and the operation to perform.
///
/// A finished bring-up hands out nothing. At the wait for the lock the
/// progress stays while the ready bit is clear, and the wait is handed out
/// again. Everywhere else, and at the wait once the bit is set, the operation
/// at the position is handed out and the position moves on.
pub open spec fn bringup_step(progress: Progress, ready: bool) -> (Progress, Option<Operation>) {
    if progress.finished() {
        (progress, None)
    } else if progress.position == LOCK_POSITION && !ready {
        (progress, Some(Operation::AwaitLock))
    } else {
        (
            Progress { config: progress.config, position: progress.position + 1 },
            Some(plan(progress.config)[progress.position as int]),
        )
    }
}

/// The progress after a run of steps, given what the ready bit showed before
/// each of them.
pub open spec fn progress_after(progress: Progress, ready: Seq<bool>) -> Progress
    decreases ready.len(),
{
    if ready.len() == 0 {
        progress
    } else {
        bringup_step(progress_after(progress, ready.drop_last()), ready.last()).0
    }
}

/// The operations that a run of steps hands out, in order.
pub open spec fn operations(progress: Progress, ready: Seq<bool>) -> Seq<Operation>
    decreases ready.len(),
{
    if ready.len() == 0 {
        Seq::empty()
    } else {
        let before = operations(progress, ready.drop_last());
        match bringup_step(progress_after(progress, ready.drop_last()), ready.last()).1 {
            Some(operation) => before.push(operation),
            None => before,
        }
    }
}

/// The bring-up at its start.
pub open spec fn start(config: ToneConfig) -> Progress {
    Progress { config, position: 0 }
}

/// The peripheral is enabled last and once: the enable bit is the final
/// operation of the plan and stands nowhere else in it.
pub proof fn lemma_enable_is_last(config: ToneConfig)
    ensures
        plan(config).len() == PLAN_LENGTH,
        forall|i: int|
            0 <= i < plan(config).len() ==> (#[trigger] plan(config)[i] == Operation::Enable
                <==> i == plan(config).len() - 1),
{
}

/// The audio clock is awaited before the peripheral is touched: every
/// operation that writes to the peripheral stands behind the wait for the
/// lock, and the pins are bound before the peripheral is enabled.
pub proof fn lemma_lock_precedes_peripheral(config: ToneConfig)
    ensures
        plan(config)[LOCK_POSITION as int] == Operation::AwaitLock,
        forall|i: int|
            0 <= i < plan(config).len() && (#[trigger] plan(config)[i]).touches_peripheral() ==> i
                > LOCK_POSITION,
        forall|i: int, j: int|
            0 <= i < plan(config).len() && 0 <= j < plan(config).len() && #[trigger] plan(
                config,
            )[i] == Operation::BindPins && #[trigger] plan(config)[j] == Operation::Enable ==> i
                < j,
{
}

/// One step keeps the progress valid and the configuration unchanged, and
/// never goes back.
pub proof fn lemma_step_valid(progress: Progress, ready: bool)
    requires
        progress.valid(),
    ensures
        bringup_step(progress, ready).0.valid(),
        bringup_step(progress, ready).0.config == progress.config,
        progress.position <= bringup_step(progress, ready).0.position <= progress.position + 1,
{
}

/// While the ready bit has never been set, a bring-up from its start stays
/// at or before the wait for the lock, and no operation that it hands out
/// writes to the peripheral.
pub proof fn lemma_nothing_before_lock(config: ToneConfig, ready: Seq<bool>)
    requires
        forall|i: int| 0 <= i < ready.len() ==> !ready[i],
    ensures
        progress_after(start(config), ready).position <= LOCK_POSITION,
        progress_after(start(config), ready).config == config,
        forall|k: int|
            0 <= k < operations(start(config), ready).len() ==> !(#[trigger] operations(
                start(config),
                ready,
            )[k]).touches_peripheral(),
    decreases ready.len(),
{
    if ready.len() > 0 {
        let head = ready.drop_last();
        lemma_nothing_before_lock(config, head);
        assert(!ready.last());
        let before = progress_after(start(config), head);
        let earlier = operations(start(config), head);
        let all = operations(start(config), ready);
        let handed = bringup_step(before, false).1;
        assert(handed is Some && !handed->Some_0.touches_peripheral()) by {
            assert(plan(config)[0] == Operation::ProgramPll(config.pll));
            assert(plan(config)[1] == Operation::StartPll);
        }
        assert(all == earlier.push(handed->Some_0));
        assert forall|k: int| 0 <= k < all.len() implies !(#[trigger] all[k]).touches_peripheral() by {
            if k < earlier.len() {
                assert(all[k] == earlier[k]);
            }
        }
    }
}

/// With the ready bit set from the first reading on, ten steps hand out the
/// whole plan in its order and finish the bring-up.
pub proof fn lemma_locked_run_follows_plan(config: ToneConfig, steps: nat)
    requires
        steps <= PLAN_LENGTH,
    ensures
        progress_after(start(config), Seq::new(steps, |i: int| true)) == (Progress {
            config,
            position: steps,
        }),
        operations(start(config), Seq::new(steps, |i: int| true)) == plan(config).take(
            steps as int,
        ),
    decreases steps,
{
    let ready = Seq::new(steps, |i: int| true);
    if steps > 0 {
        let fewer = (steps - 1) as nat;
        lemma_locked_run_follows_plan(config, fewer);
        assert(ready.drop_last() =~= Seq::new(fewer, |i: int| true));
        assert(plan(config).take(steps as int) =~= plan(config).take(fewer as int).push(
            plan(config)[fewer as int],
        ));
    } else {
        assert(plan(config).take(0) =~= Seq::<Operation>::empty());
    }
}

/// Once finished, a bring-up hands out nothing more, whatever the ready bit
/// shows: nothing follows the enable bit.
pub proof fn lemma_finished_stays(progress: Progress, ready: Seq<bool>)
    requires
        progress.finished(),
    ensures
        progress_after(progress, ready) == progress,
        operations(progress, ready) == Seq::<Operation>::empty(),
    decreases ready.len(),
{
    if ready.len() > 0 {
        lemma_finished_stays(progress, ready.drop_last());
    }
}

/// The sequencer of a bring-up.
pub struct Bringup {
    config: ToneConfig,
    position: u8,
}

impl View for Bringup {
    type V = Progress;

    closed spec fn view(&self) -> Progress {
        Progress { config: self.config, position: self.position as nat }
    }
}

impl Bringup {
    #[verifier::type_invariant]
    spec fn inv(self) -> bool {
        self.position <= PLAN_LENGTH
    }

    /// A bring-up of `config` at its start.
    pub fn new(config: ToneConfig) -> (bringup: Bringup)
        ensures
            bringup@ == start(config),
    {
        Bringup { config, position: 0 }
    }

    /// The configuration that is being brought up.
    pub fn config(&self) -> (config: ToneConfig)
        ensures
            config == self@.config,
    {
        self.config
    }

    /// Whether every operation has been handed out, the enable bit last.
    pub fn is_finished(&self) -> (finished: bool)
        ensures
            finished == self@.finished(),
            self@.valid(),
    {
        proof {
            use_type_invariant(self);
        }
        self.position >= PLAN_LENGTH
    }

    /// The next operation to perform, or `None` when the bring-up is
    /// finished. `ready` is what the ready bit of the audio clock showed when
    /// it was last read; it matters at the wait for the lock only.
    pub fn step(&mut self, ready: bool) -> (operation: Option<Operation>)
        ensures
            (final(self)@, operation) == bringup_step(old(self)@, ready),
            final(self)@.valid(),
    {
        proof {
            use_type_invariant(&*self);
        }
        if self.position >= PLAN_LENGTH {
            return None;
        }
        if self.position == LOCK_POSITION && !ready {
            return Some(Operation::AwaitLock);
        }
        let operation = match self.position {
            0 => Operation::ProgramPll(self.config.pll),
            1 => Operation::StartPll,
            2 => Operation::AwaitLock,
            3 => Operation::BindPins,
            4 => Operation::SetInterrupts(InterruptMask::configuration()),
            5 => Operation::SetBitClock(self.config.bit_clock),
            6 => Operation::SetMasterClockOutput(self.config.master_clock_output),
            7 => Operation::SetFormat(FrameFormat::audio()),
            8 => Operation::SetTxInterrupt(self.config.strategy.uses_tx_interrupt()),
            _ => Operation::Enable,
        };
        self.position = self.position + 1;
        Some(operation)
    }
}

} // verus!
