//! Log-level bookkeeping for messages that should be loud only once.
//!
//! The sink that carries a message away is the host program's business;
//! this module decides, verifiably, at which level each message goes
//! out: the first occurrence at a loud level, every later one at a
//! quieter level.

use vstd::prelude::*;

verus! {

/// A log level, loudest first.
#[derive(Clone, Copy, PartialEq, Eq, Structural, Debug)]
pub enum Level {
    Error,
    Warn,
    Info,
    Debug,
    Trace,
}

/// The state of one log-once statement: whether it has already spoken
/// at its loud level.
#[derive(Clone, Copy, PartialEq, Eq, Structural, Debug)]
pub struct LogOnceState {
    pub has_logged: bool,
}

impl LogOnceState {
    /// A statement that has not spoken yet.
    pub fn new() -> (r: LogOnceState)
        ensures
            !r.has_logged,
    {
        LogOnceState { has_logged: false }
    }

    /// The level for the next message: `lvl_once` the first time, and
    /// `lvl_remaining` from then on.
    pub fn next_level(&mut self, lvl_once: Level, lvl_remaining: Level) -> (r: Level)
        ensures
            r == (if old(self).has_logged {
                lvl_remaining
            } else {
                lvl_once
            }),
            final(self).has_logged,
    {
        if self.has_logged {
            lvl_remaining
        } else {
            self.has_logged = true;
            lvl_once
        }
    }

    /// Warn once, then drop to debug level.
    pub fn warn_once_then_debug(&mut self) -> (r: Level)
        ensures
            r == (if old(self).has_logged {
                Level::Debug
            } else {
                Level::Warn
            }),
            final(self).has_logged,
    {
        self.next_level(Level::Warn, Level::Debug)
    }

    /// Warn once, then drop to trace level.
    pub fn warn_once_then_trace(&mut self) -> (r: Level)
        ensures
            r == (if old(self).has_logged {
                Level::Trace
            } else {
                Level::Warn
            }),
            final(self).has_logged,
    {
        self.next_level(Level::Warn, Level::Trace)
    }
}

/// A defect report: the message is handed back at warning level for the
/// host to log; a debug build of the host may then abort on it.
pub fn debug_panic(msg: &str) -> (r: (Level, String))
    ensures
        r.0 == Level::Warn,
        r.1@ == msg@,
{
    (Level::Warn, msg.to_owned())
}

} // verus!
