//! The configuration of the tone generator: the audio clock, the bit clock,
//! the frame format and the delivery strategy, all fixed when the firmware
//! is built.

use vstd::prelude::*;
use crate::waveform::valid_period;

verus! {

/// The divider in front of the audio clock generator.
pub const PLL_PRESCALER: u8 = 4;

/// The multiplier of the audio clock generator.
pub const PLL_MULTIPLIER: u16 = 192;

/// The divider behind the audio clock generator.
pub const PLL_POSTSCALER: u8 = 5;

/// The divider that derives the bit clock from the audio clock.
pub const BIT_CLOCK_DIVIDER: u8 = 12;

/// The odd adjustment of the bit-clock divider.
pub const BIT_CLOCK_ODD: bool = true;

/// Whether the master clock is put out on its pin.
pub const MASTER_CLOCK_OUTPUT: bool = false;

/// The number of stereo frames per second that the clocks above produce.
pub const SAMPLE_RATE: u16 = 48_000;

/// The frequency of the tone, in cycles per second.
pub const TONE_FREQUENCY: u16 = 110;

/// The number of samples in one cycle of the sawtooth.
pub const SAWTOOTH_PERIOD: u16 = SAMPLE_RATE / TONE_FREQUENCY;

/// The three numbers that set the audio clock generator.
#[derive(Clone, Copy, Debug, PartialEq, Eq, Structural)]
pub struct PllConfig {
    /// The divider in front of the generator.
    pub prescaler: u8,
    /// The multiplier.
    pub multiplier: u16,
    /// The divider behind the generator.
    pub postscaler: u8,
}

/// The two values that together set the output bit rate.
#[derive(Clone, Copy, Debug, PartialEq, Eq, Structural)]
pub struct BitClock {
    /// The divider.
    pub divider: u8,
    /// The odd adjustment bit.
    pub odd: bool,
}

/// The role of the peripheral on the audio bus.
#[derive(Clone, Copy, Debug, PartialEq, Eq, Structural)]
pub enum Role {
    SlaveTransmit,
    SlaveReceive,
    MasterTransmit,
    MasterReceive,
}

/// The length of the frame synchronisation pulse.
#[derive(Clone, Copy, Debug, PartialEq, Eq, Structural)]
pub enum FrameSync {
    Short,
    Long,
}

/// The framing standard.
#[derive(Clone, Copy, Debug, PartialEq, Eq, Structural)]
pub enum Standard {
    Philips,
    MsbJustified,
    LsbJustified,
    Pcm,
}

/// The level of the bit clock while nothing is sent.
#[derive(Clone, Copy, Debug, PartialEq, Eq, Structural)]
pub enum ClockPolarity {
    IdleLow,
    IdleHigh,
}

/// The number of bits of one code-word.
#[derive(Clone, Copy, Debug, PartialEq, Eq, Structural)]
pub enum WordLength {
    Bits16,
    Bits24,
    Bits32,
}

/// The number of bits of the slot that holds one code-word.
#[derive(Clone, Copy, Debug, PartialEq, Eq, Structural)]
pub enum SlotLength {
    Bits16,
    Bits32,
}

/// The frame format of the peripheral in audio mode.
#[derive(Clone, Copy, Debug, PartialEq, Eq, Structural)]
pub struct FrameFormat {
    pub word: WordLength,
    pub slot: SlotLength,
    pub role: Role,
    pub sync: FrameSync,
    pub standard: Standard,
    pub polarity: ClockPolarity,
}

/// Which interrupt sources of the peripheral are let through.
#[derive(Clone, Copy, Debug, PartialEq, Eq, Structural)]
pub struct InterruptMask {
    /// The error interrupt.
    pub error: bool,
    /// The transmit-empty interrupt.
    pub tx_empty: bool,
    /// The receive-ready interrupt.
    pub rx_ready: bool,
}

/// How the engine learns that the transmitter can take a word. The two
/// never run together.
#[derive(Clone, Copy, Debug, PartialEq, Eq, Structural)]
pub enum Strategy {
    /// The foreground loop reads the status register until the transmitter
    /// is empty.
    Polling,
    /// The transmit-empty interrupt calls the engine.
    InterruptDriven,
}

/// The two execution contexts of the firmware.
#[derive(Clone, Copy, Debug, PartialEq, Eq, Structural)]
pub enum Context {
    /// The foreground loop.
    Foreground,
    /// The handler of the peripheral's interrupt.
    Interrupt,
}

/// Everything that one build of the tone generator fixes.
#[derive(Clone, Copy, Debug, PartialEq, Eq, Structural)]
pub struct ToneConfig {
    pub pll: PllConfig,
    pub bit_clock: BitClock,
    pub master_clock_output: bool,
    pub period: u16,
    pub strategy: Strategy,
}

impl WordLength {
    /// The length in bits.
    pub open spec fn bits(self) -> nat {
        match self {
            WordLength::Bits16 => 16,
            WordLength::Bits24 => 24,
            WordLength::Bits32 => 32,
        }
    }
}

impl SlotLength {
    /// The length in bits.
    pub open spec fn bits(self) -> nat {
        match self {
            SlotLength::Bits16 => 16,
            SlotLength::Bits32 => 32,
        }
    }
}

impl FrameFormat {
    /// A code-word fits its slot.
    pub open spec fn fits(self) -> bool {
        self.word.bits() <= self.slot.bits()
    }

    /// Whether a code-word fits its slot.
    pub fn word_fits_slot(&self) -> (fits: bool)
        ensures
            fits == self.fits(),
    {
        match self.slot {
            SlotLength::Bits32 => true,
            SlotLength::Bits16 => match self.word {
                WordLength::Bits16 => true,
                _ => false,
            },
        }
    }
}

/// The one frame format of the tone generator: 16-bit words in 32-bit slots,
/// sent as master, long frame synchronisation, standard stereo framing, the
/// clock idling low.
pub open spec fn audio_format() -> FrameFormat {
    FrameFormat {
        word: WordLength::Bits16,
        slot: SlotLength::Bits32,
        role: Role::MasterTransmit,
        sync: FrameSync::Long,
        standard: Standard::Philips,
        polarity: ClockPolarity::IdleLow,
    }
}

/// The interrupt sources while the peripheral is being configured: errors
/// are let through, transmit-empty and receive-ready are not.
pub open spec fn configuration_mask() -> InterruptMask {
    InterruptMask { error: true, tx_empty: false, rx_ready: false }
}

/// The configuration that the constants of this module describe, for either
/// strategy.
pub open spec fn standard_config(strategy: Strategy) -> ToneConfig {
    ToneConfig {
        pll: PllConfig {
            prescaler: PLL_PRESCALER,
            multiplier: PLL_MULTIPLIER,
            postscaler: PLL_POSTSCALER,
        },
        bit_clock: BitClock { divider: BIT_CLOCK_DIVIDER, odd: BIT_CLOCK_ODD },
        master_clock_output: MASTER_CLOCK_OUTPUT,
        period: SAWTOOTH_PERIOD,
        strategy,
    }
}

impl Strategy {
    /// The one context that calls the engine and writes the data register:
    /// the foreground loop when polling, the interrupt handler otherwise.
    pub open spec fn owner(self) -> Context {
        match self {
            Strategy::Polling => Context::Foreground,
            Strategy::InterruptDriven => Context::Interrupt,
        }
    }

    /// The transmit-empty interrupt is let through for the interrupt-driven
    /// strategy and for no other.
    pub open spec fn wants_tx_interrupt(self) -> bool {
        self == Strategy::InterruptDriven
    }

    /// Under either strategy exactly one context owns the engine, never both
    /// and never none, and the transmit-empty interrupt is let through
    /// exactly when that context is the interrupt handler.
    pub proof fn lemma_one_owner(self)
        ensures
            (self.owner() == Context::Foreground) != (self.owner() == Context::Interrupt),
            self.wants_tx_interrupt() <==> self.owner() == Context::Interrupt,
    {
    }

    /// Whether `context` is the one that calls the engine under this
    /// strategy.
    pub fn owns_engine(&self, context: Context) -> (owns: bool)
        ensures
            owns == (self.owner() == context),
    {
        match (self, context) {
            (Strategy::Polling, Context::Foreground) => true,
            (Strategy::InterruptDriven, Context::Interrupt) => true,
            _ => false,
        }
    }

    /// Whether the transmit-empty interrupt is to be let through.
    pub fn uses_tx_interrupt(&self) -> (wanted: bool)
        ensures
            wanted == self.wants_tx_interrupt(),
    {
        match self {
            Strategy::Polling => false,
            Strategy::InterruptDriven => true,
        }
    }
}

impl FrameFormat {
    /// The frame format of the tone generator.
    pub fn audio() -> (format: FrameFormat)
        ensures
            format == audio_format(),
            format.fits(),
    {
        FrameFormat {
            word: WordLength::Bits16,
            slot: SlotLength::Bits32,
            role: Role::MasterTransmit,
            sync: FrameSync::Long,
            standard: Standard::Philips,
            polarity: ClockPolarity::IdleLow,
        }
    }
}

impl InterruptMask {
    /// The mask that holds while the peripheral is being configured.
    pub fn configuration() -> (mask: InterruptMask)
        ensures
            mask == configuration_mask(),
    {
        InterruptMask { error: true, tx_empty: false, rx_ready: false }
    }
}

impl ToneConfig {
    /// The configuration of the 110 Hz sawtooth at 48 kHz, delivered by
    /// `strategy`. Its period is valid.
    pub fn standard(strategy: Strategy) -> (config: ToneConfig)
        ensures
            config == standard_config(strategy),
            config.period == 436,
            valid_period(config.period as int),
    {
        ToneConfig {
            pll: PllConfig {
                prescaler: PLL_PRESCALER,
                multiplier: PLL_MULTIPLIER,
                postscaler: PLL_POSTSCALER,
            },
            bit_clock: BitClock { divider: BIT_CLOCK_DIVIDER, odd: BIT_CLOCK_ODD },
            master_clock_output: MASTER_CLOCK_OUTPUT,
            period: SAWTOOTH_PERIOD,
            strategy,
        }
    }
}

} // verus!
