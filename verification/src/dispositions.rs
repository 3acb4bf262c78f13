//! The per-process table of signal dispositions.
//!
//! One table is shared by all threads of a simulated process. The two
//! untouchable signals are pinned to their default action: any attempt
//! to give them another disposition is rejected.

use vstd::prelude::*;

use crate::abi::Disposition;
use crate::abi::sigaction;
use crate::errors::SignalError;
use crate::sigset;

verus! {

/// Maps each signal number to its registered action (slot 0 is unused
/// and stays at the default action).
#[derive(Debug)]
pub struct DispositionTable {
    pub actions: Vec<sigaction>,
}

impl DispositionTable {
    /// The registered action of signal `s`; the default action outside
    /// the slot range.
    pub open spec fn action(self, s: int) -> sigaction {
        if 0 <= s < self.actions@.len() {
            self.actions@[s]
        } else {
            sigaction { sa_handler: 0, sa_flags: 0, sa_restorer: 0, sa_mask: 0 }
        }
    }

    /// 65 slots, and the untouchable signals sit at their default action.
    pub open spec fn wf(self) -> bool {
        &&& self.actions@.len() == 65
        &&& forall|s: int|
            sigset::untouchable(s) ==> (#[trigger] self.action(s)).disposition()
                == Disposition::Default
    }

    /// A fresh table: every signal at its default action.
    pub fn new() -> (r: DispositionTable)
        ensures
            r.wf(),
            forall|s: int| (#[trigger] r.action(s)).disposition() == Disposition::Default,
            forall|s: int| #[trigger] r.action(s) == (sigaction {
                sa_handler: 0,
                sa_flags: 0,
                sa_restorer: 0,
                sa_mask: 0,
            }),
    {
        let mut actions: Vec<sigaction> = Vec::new();
        let mut k: usize = 0;
        while k < 65
            invariant
                k == actions@.len(),
                k <= 65,
                forall|j: int|
                    0 <= j < k ==> #[trigger] actions@[j] == (sigaction {
                        sa_handler: 0,
                        sa_flags: 0,
                        sa_restorer: 0,
                        sa_mask: 0,
                    }),
            decreases 65 - k,
        {
            actions.push(sigaction::default_action());
            k = k + 1;
        }
        DispositionTable { actions }
    }

    /// Read the action registered for `signal`.
    pub fn get(&self, signal: i32) -> (r: sigaction)
        requires
            self.wf(),
            sigset::valid_signal(signal as int),
        ensures
            r == self.action(signal as int),
    {
        self.actions[signal as usize]
    }

    /// Register `act` for `signal`, returning the previous action.
    ///
    /// Rejected exactly when `signal` is untouchable and `act` is not the
    /// default disposition. Dropping a queued-but-undelivered record on a
    /// move to ignore or default is the engine's job, since the pending
    /// sets live beside this table, not in it.
    pub fn set(&mut self, signal: i32, act: sigaction) -> (r: Result<sigaction, SignalError>)
        requires
            old(self).wf(),
            sigset::valid_signal(signal as int),
        ensures
            final(self).wf(),
            r is Err <==> (sigset::untouchable(signal as int) && act.disposition()
                != Disposition::Default),
            r is Err ==> r->Err_0 == SignalError::Rejected && final(self).actions@ == old(
                self,
            ).actions@,
            r is Ok ==> r->Ok_0 == old(self).action(signal as int) && final(self).action(
                signal as int,
            ) == act && (forall|t: int|
                t != signal as int ==> #[trigger] final(self).action(t) == old(self).action(t)),
    {
        if sigset::signal_untouchable(signal) {
            let is_default = act.sa_handler == 0;
            if !is_default {
                return Result::Err(SignalError::Rejected);
            }
        }
        let prev = self.actions[signal as usize];
        self.actions[signal as usize] = act;
        proof {
            assert forall|t: int|
                sigset::untouchable(t) implies (#[trigger] self.action(t)).disposition()
                == Disposition::Default by {
                if t != signal as int {
                    assert(self.action(t) == old(self).action(t));
                }
            }
        }
        Result::Ok(prev)
    }
}

} // verus!
