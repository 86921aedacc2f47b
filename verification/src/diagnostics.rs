//! The lines that go to the diagnostic sink. The sink is best effort: the
//! caller hands each line over once and never waits for it.

use vstd::prelude::*;
use crate::engine::ErrorFlags;

verus! {

/// One line for the diagnostic sink.
#[derive(Clone, Copy, Debug, PartialEq, Eq, Structural)]
pub enum Diagnostic {
    /// Bring-up is finished and the peripheral is enabled.
    InitializationComplete,
    /// Frame synchronisation was lost.
    FrameError,
    /// Data arrived faster than it was taken.
    Overrun,
    /// The transmitter needed a word and found none.
    Underrun,
}

/// The text of each line.
pub open spec fn message_text(diagnostic: Diagnostic) -> Seq<char> {
    match diagnostic {
        Diagnostic::InitializationComplete => "initialization complete"@,
        Diagnostic::FrameError => "Frame Error"@,
        Diagnostic::Overrun => "Overrun"@,
        Diagnostic::Underrun => "underrun"@,
    }
}

/// The line that an error condition calls for, if it is set.
pub open spec fn line_if(set: bool, diagnostic: Diagnostic) -> Option<Diagnostic> {
    if set {
        Some(diagnostic)
    } else {
        None
    }
}

impl Diagnostic {
    /// The text of this line.
    pub fn message(&self) -> (text: &'static str)
        ensures
            text@ == message_text(*self),
    {
        match self {
            Diagnostic::InitializationComplete => "initialization complete",
            Diagnostic::FrameError => "Frame Error",
            Diagnostic::Overrun => "Overrun",
            Diagnostic::Underrun => "underrun",
        }
    }
}

/// The lines that one snapshot of the error conditions calls for: frame
/// error, overrun and underrun in this order, each once if its condition is
/// set and not at all otherwise.
pub fn reports(errors: ErrorFlags) -> (lines: [Option<Diagnostic>; 3])
    ensures
        lines[0] == line_if(errors.frame_error, Diagnostic::FrameError),
        lines[1] == line_if(errors.overrun, Diagnostic::Overrun),
        lines[2] == line_if(errors.underrun, Diagnostic::Underrun),
{
    let frame_error = if errors.frame_error {
        Some(Diagnostic::FrameError)
    } else {
        None
    };
    let overrun = if errors.overrun {
        Some(Diagnostic::Overrun)
    } else {
        None
    };
    let underrun = if errors.underrun {
        Some(Diagnostic::Underrun)
    } else {
        None
    };
    [frame_error, overrun, underrun]
}

} // verus!
