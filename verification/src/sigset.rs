//! Signal numbers and fixed-capacity signal sets.
//!
//! Signals are numbered `1..=64`: the standard signals occupy `1..=31`
//! and the real-time range is `32..=64`. Two signals — `SIGKILL` and
//! `SIGSTOP` — are untouchable: they can never be blocked, ignored or
//! given a handler.

use vstd::prelude::*;

verus! {

pub const SIGHUP: i32 = 1;
pub const SIGINT: i32 = 2;
pub const SIGQUIT: i32 = 3;
pub const SIGILL: i32 = 4;
pub const SIGTRAP: i32 = 5;
pub const SIGABRT: i32 = 6;
pub const SIGBUS: i32 = 7;
pub const SIGFPE: i32 = 8;
pub const SIGKILL: i32 = 9;
pub const SIGUSR1: i32 = 10;
pub const SIGSEGV: i32 = 11;
pub const SIGUSR2: i32 = 12;
pub const SIGPIPE: i32 = 13;
pub const SIGALRM: i32 = 14;
pub const SIGTERM: i32 = 15;
pub const SIGSTKFLT: i32 = 16;
pub const SIGCHLD: i32 = 17;
pub const SIGCONT: i32 = 18;
pub const SIGSTOP: i32 = 19;
pub const SIGTSTP: i32 = 20;
pub const SIGTTIN: i32 = 21;
pub const SIGTTOU: i32 = 22;
pub const SIGURG: i32 = 23;
pub const SIGXCPU: i32 = 24;
pub const SIGXFSZ: i32 = 25;
pub const SIGVTALRM: i32 = 26;
pub const SIGPROF: i32 = 27;
pub const SIGWINCH: i32 = 28;
pub const SIGIO: i32 = 29;
pub const SIGPWR: i32 = 30;
pub const SIGSYS: i32 = 31;
/// First real-time signal.
pub const SIGRTMIN: i32 = 32;
/// Last valid signal number.
pub const SIGNAL_MAX: i32 = 64;

/// A valid signal number.
pub open spec fn valid_signal(s: int) -> bool {
    1 <= s <= 64
}

/// The two signals whose disposition and blocking can never change.
pub open spec fn untouchable(s: int) -> bool {
    s == SIGKILL || s == SIGSTOP
}

/// Real-time signals queue multiple instances; standard signals coalesce.
pub open spec fn is_realtime(s: int) -> bool {
    SIGRTMIN <= s <= SIGNAL_MAX
}

/// Executable form of [`untouchable`].
pub fn signal_untouchable(s: i32) -> (r: bool)
    ensures
        r == untouchable(s as int),
{
    s == SIGKILL || s == SIGSTOP
}

/// Executable form of [`is_realtime`].
pub fn signal_is_realtime(s: i32) -> (r: bool)
    ensures
        r == is_realtime(s as int),
{
    SIGRTMIN <= s && s <= SIGNAL_MAX
}

/// What the kernel does with a signal whose disposition is left at default.
#[derive(Clone, Copy, PartialEq, Eq, Structural, Debug)]
pub enum DefaultAction {
    Terminate,
    CoreDump,
    Stop,
    Continue,
    Ignore,
}

/// The default action of each signal, as the kernel defines it.
pub open spec fn spec_default_action(s: int) -> DefaultAction {
    if s == SIGCHLD || s == SIGURG || s == SIGWINCH {
        DefaultAction::Ignore
    } else if s == SIGCONT {
        DefaultAction::Continue
    } else if s == SIGSTOP || s == SIGTSTP || s == SIGTTIN || s == SIGTTOU {
        DefaultAction::Stop
    } else if s == SIGQUIT || s == SIGILL || s == SIGTRAP || s == SIGABRT || s == SIGBUS
        || s == SIGFPE || s == SIGSEGV || s == SIGXCPU || s == SIGXFSZ || s == SIGSYS {
        DefaultAction::CoreDump
    } else {
        DefaultAction::Terminate
    }
}

/// Executable form of [`spec_default_action`].
pub fn default_action(s: i32) -> (r: DefaultAction)
    ensures
        r == spec_default_action(s as int),
{
    if s == SIGCHLD || s == SIGURG || s == SIGWINCH {
        DefaultAction::Ignore
    } else if s == SIGCONT {
        DefaultAction::Continue
    } else if s == SIGSTOP || s == SIGTSTP || s == SIGTTIN || s == SIGTTOU {
        DefaultAction::Stop
    } else if s == SIGQUIT || s == SIGILL || s == SIGTRAP || s == SIGABRT || s == SIGBUS
        || s == SIGFPE || s == SIGSEGV || s == SIGXCPU || s == SIGXFSZ || s == SIGSYS {
        DefaultAction::CoreDump
    } else {
        DefaultAction::Terminate
    }
}

/// A set of signals, stored as one bit per signal number.
///
/// Bit `s - 1` of `bits` holds membership of signal `s`.
#[derive(Clone, Copy, PartialEq, Eq, Structural, Debug)]
pub struct SignalSet {
    pub bits: u64,
}

impl SignalSet {
    /// Membership of signal `s`; false outside the valid range.
    pub open spec fn has(self, s: int) -> bool {
        valid_signal(s) && (self.bits >> ((s - 1) as u64)) & 1u64 == 1u64
    }

    /// The set with no members.
    pub fn empty() -> (r: SignalSet)
        ensures
            r.bits == 0,
            forall|s: int| !r.has(s),
    {
        let r = SignalSet { bits: 0 };
        proof {
            assert forall|s: int| !r.has(s) by {
                if valid_signal(s) {
                    let j = (s - 1) as u64;
                    assert((0u64 >> j) & 1u64 == 0u64) by (bit_vector);
                }
            }
        }
        r
    }

    /// Build a set directly from its bit pattern.
    pub fn from_bits(bits: u64) -> (r: SignalSet)
        ensures
            r.bits == bits,
    {
        SignalSet { bits }
    }

    /// Membership test. Total: invalid numbers are never members.
    pub fn contains(&self, s: i32) -> (r: bool)
        ensures
            r == self.has(s as int),
    {
        if s < 1 || s > SIGNAL_MAX {
            false
        } else {
            (self.bits >> ((s - 1) as u64)) & 1u64 == 1u64
        }
    }

    /// The set with `s` added.
    pub fn insert(self, s: i32) -> (r: SignalSet)
        requires
            valid_signal(s as int),
        ensures
            forall|t: int| r.has(t) <==> (self.has(t) || t == s as int),
    {
        let k: u64 = (s - 1) as u64;
        let r = SignalSet { bits: self.bits | (1u64 << k) };
        proof {
            let b = self.bits;
            assert forall|t: int| r.has(t) <==> (self.has(t) || t == s as int) by {
                if valid_signal(t) {
                    let j = (t - 1) as u64;
                    assert(j < 64 && k < 64 && j == k ==> ((b | (1u64 << k)) >> j) & 1u64 == 1u64)
                        by (bit_vector);
                    assert(j < 64 && k < 64 && j != k ==> ((b | (1u64 << k)) >> j) & 1u64 == (b
                        >> j) & 1u64) by (bit_vector);
                }
            }
        }
        r
    }

    /// The set with `s` taken out. Total: removing an invalid number is a no-op.
    pub fn remove(self, s: i32) -> (r: SignalSet)
        ensures
            forall|t: int| r.has(t) <==> (self.has(t) && t != s as int),
    {
        if s < 1 || s > SIGNAL_MAX {
            return self;
        }
        let k: u64 = (s - 1) as u64;
        let r = SignalSet { bits: self.bits & !(1u64 << k) };
        proof {
            let b = self.bits;
            assert forall|t: int| r.has(t) <==> (self.has(t) && t != s as int) by {
                if valid_signal(t) {
                    let j = (t - 1) as u64;
                    assert(j < 64 && k < 64 && j == k ==> ((b & !(1u64 << k)) >> j) & 1u64 == 0u64)
                        by (bit_vector);
                    assert(j < 64 && k < 64 && j != k ==> ((b & !(1u64 << k)) >> j) & 1u64 == (b
                        >> j) & 1u64) by (bit_vector);
                }
            }
        }
        r
    }

    /// Set union.
    pub fn union(self, other: SignalSet) -> (r: SignalSet)
        ensures
            forall|t: int| r.has(t) <==> (self.has(t) || other.has(t)),
    {
        let r = SignalSet { bits: self.bits | other.bits };
        proof {
            let a = self.bits;
            let b = other.bits;
            assert forall|t: int| r.has(t) <==> (self.has(t) || other.has(t)) by {
                if valid_signal(t) {
                    let j = (t - 1) as u64;
                    assert(((a | b) >> j) & 1u64 == 1u64 <==> ((a >> j) & 1u64 == 1u64 || (b >> j)
                        & 1u64 == 1u64)) by (bit_vector);
                }
            }
        }
        r
    }

    /// Set intersection.
    pub fn intersect(self, other: SignalSet) -> (r: SignalSet)
        ensures
            forall|t: int| r.has(t) <==> (self.has(t) && other.has(t)),
    {
        let r = SignalSet { bits: self.bits & other.bits };
        proof {
            let a = self.bits;
            let b = other.bits;
            assert forall|t: int| r.has(t) <==> (self.has(t) && other.has(t)) by {
                if valid_signal(t) {
                    let j = (t - 1) as u64;
                    assert(((a & b) >> j) & 1u64 == 1u64 <==> ((a >> j) & 1u64 == 1u64 && (b >> j)
                        & 1u64 == 1u64)) by (bit_vector);
                }
            }
        }
        r
    }

    /// The members of `self` that are not in `other`.
    pub fn difference(self, other: SignalSet) -> (r: SignalSet)
        ensures
            forall|t: int| r.has(t) <==> (self.has(t) && !other.has(t)),
    {
        let r = SignalSet { bits: self.bits & !other.bits };
        proof {
            let a = self.bits;
            let b = other.bits;
            assert forall|t: int| r.has(t) <==> (self.has(t) && !other.has(t)) by {
                if valid_signal(t) {
                    let j = (t - 1) as u64;
                    assert(((a & !b) >> j) & 1u64 == 1u64 <==> ((a >> j) & 1u64 == 1u64 && !((b
                        >> j) & 1u64 == 1u64))) by (bit_vector);
                }
            }
        }
        r
    }

    /// The set with the untouchable signals dropped: the shape every
    /// blocked mask is kept in.
    pub fn scrub(self) -> (r: SignalSet)
        ensures
            forall|t: int| #[trigger] r.has(t) <==> (self.has(t) && !untouchable(t)),
    {
        self.remove(SIGKILL).remove(SIGSTOP)
    }

    /// Whether the set has no members.
    pub fn is_empty(&self) -> (r: bool)
        ensures
            r <==> (forall|s: int| !self.has(s)),
    {
        match self.lowest_set() {
            Option::Some(_) => false,
            Option::None => true,
        }
    }

    /// The lowest-numbered member, if any. Delivery picks pending signals
    /// in ascending numeric order, so this is the selection primitive.
    pub fn lowest_set(&self) -> (r: Option<i32>)
        ensures
            match r {
                Option::Some(s) => self.has(s as int) && (forall|t: int|
                    1 <= t < s as int ==> !self.has(t)),
                Option::None => forall|s: int| !self.has(s),
            },
    {
        let mut s: i32 = 1;
        while s <= SIGNAL_MAX
            invariant
                1 <= s <= 65,
                forall|t: int| 1 <= t < s as int ==> !self.has(t),
            decreases 65 - s,
        {
            if self.contains(s) {
                return Option::Some(s);
            }
            s = s + 1;
        }
        Option::None
    }
}

} // verus!
