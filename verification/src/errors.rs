//! The error taxonomy of the signal subsystem.

use vstd::prelude::*;

verus! {

/// Why a request was refused. All three are recoverable by the caller:
/// each maps to the invalid-argument style error the emulated syscall
/// reports back to the guest.
#[derive(Clone, Copy, PartialEq, Eq, Structural, Debug)]
pub enum SignalError {
    /// An attempt to give an untouchable signal a non-default disposition.
    Rejected,
    /// A malformed alternate-stack configuration.
    InvalidArgument,
    /// Reconfiguring an alternate stack while a handler runs on it.
    Busy,
}

impl SignalError {
    /// A short name for logs and messages.
    pub fn describe(&self) -> (r: &'static str)
    {
        match self {
            SignalError::Rejected => "rejected",
            SignalError::InvalidArgument => "invalid argument",
            SignalError::Busy => "busy",
        }
    }
}

} // verus!
