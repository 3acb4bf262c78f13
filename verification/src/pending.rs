//! Pending-signal bookkeeping for one holder.
//!
//! Each process has one instance for process-directed signals and each
//! thread one for thread-directed signals. A holder keeps one FIFO queue
//! of metadata records per signal number: a standard signal coalesces to
//! at most one queued record, a real-time signal queues several up to a
//! fixed capacity, and the untouchable signals are never queued at all —
//! raising one is an immediate, unmaskable delivery.

use vstd::prelude::*;

use crate::sigset;
use crate::sigset::SignalSet;
use crate::sinfo::SigInfo;

verus! {

/// How many records one real-time signal can hold queued per holder.
pub const RT_QUEUE_CAP: usize = 32;

/// What a raise did.
#[derive(Clone, Copy, PartialEq, Eq, Structural, Debug)]
pub enum RaiseOutcome {
    /// An untouchable signal: never queued, to be delivered at once.
    Delivered,
    /// The record joined the pending queue.
    Queued,
    /// A standard signal already pending: the raise is dropped.
    Coalesced,
    /// A real-time signal whose queue is at capacity.
    QueueFull,
}

/// The pending signals of one holder: one metadata queue per signal
/// number, indexed by the number itself (slot 0 stays empty).
#[derive(Debug)]
pub struct PendingSignals {
    pub buckets: Vec<Vec<SigInfo>>,
}

/// `s.remove(i)` followed by `insert(i, x)` is pointwise `update(i, x)`.
pub(crate) proof fn lemma_remove_insert<T>(s: Seq<T>, i: int, x: T)
    requires
        0 <= i < s.len(),
    ensures
        s.remove(i).insert(i, x) =~= s.update(i, x),
{
}

impl PendingSignals {
    /// The queued records of signal `s`, oldest first; empty outside the
    /// slot range.
    pub open spec fn bucket(self, s: int) -> Seq<SigInfo> {
        if 0 <= s < self.buckets@.len() {
            self.buckets@[s]@
        } else {
            Seq::empty()
        }
    }

    /// Whether some record of signal `s` is pending.
    pub open spec fn pending(self, s: int) -> bool {
        sigset::valid_signal(s) && self.bucket(s).len() > 0
    }

    /// Whether any record outside `excluding` is pending.
    pub open spec fn some_deliverable(self, excluding: SignalSet) -> bool {
        exists|s: int| self.pending(s) && !excluding.has(s)
    }

    /// Structural soundness: 65 slots; every record sits in the slot of
    /// its own signal number and is well formed; untouchable signals are
    /// never queued; standard signals hold at most one record; no queue
    /// exceeds the real-time capacity.
    pub open spec fn wf(self) -> bool {
        &&& self.buckets@.len() == 65
        &&& self.bucket(0).len() == 0
        &&& forall|s: int, i: int|
            1 <= s <= 64 && 0 <= i < self.bucket(s).len() ==> (#[trigger] self.bucket(s)[i]).signal
                == s && self.bucket(s)[i].wf()
        &&& forall|s: int| sigset::untouchable(s) ==> (#[trigger] self.bucket(s)).len() == 0
        &&& forall|s: int|
            1 <= s < sigset::SIGRTMIN ==> (#[trigger] self.bucket(s)).len() <= 1
        &&& forall|s: int| 0 <= s <= 64 ==> (#[trigger] self.bucket(s)).len() <= RT_QUEUE_CAP
    }

    /// A holder with nothing pending.
    pub fn new() -> (r: PendingSignals)
        ensures
            r.wf(),
            forall|s: int| 0 <= s <= 64 ==> (#[trigger] r.bucket(s)).len() == 0,
    {
        let mut buckets: Vec<Vec<SigInfo>> = Vec::new();
        let mut k: usize = 0;
        while k < 65
            invariant
                k == buckets@.len(),
                k <= 65,
                forall|j: int| 0 <= j < k ==> (#[trigger] buckets@[j])@.len() == 0,
            decreases 65 - k,
        {
            buckets.push(Vec::new());
            k = k + 1;
        }
        PendingSignals { buckets }
    }

    /// Executable form of [`PendingSignals::pending`]. Total: numbers
    /// outside the valid range are never pending.
    pub fn is_pending(&self, s: i32) -> (r: bool)
        requires
            self.wf(),
        ensures
            r == self.pending(s as int),
    {
        if s < 1 || s > sigset::SIGNAL_MAX {
            false
        } else {
            self.buckets[s as usize].len() > 0
        }
    }

    /// Mark `info.signal` pending, carrying `info`.
    ///
    /// Untouchable signals bypass queueing (and masking) entirely: the
    /// outcome `Delivered` tells the caller to apply the default effect
    /// at once. A standard signal already pending coalesces; a real-time
    /// signal queues in FIFO order unless its queue is full.
    pub fn raise(&mut self, info: SigInfo) -> (r: RaiseOutcome)
        requires
            old(self).wf(),
            info.wf(),
        ensures
            final(self).wf(),
            (r == RaiseOutcome::Delivered) <==> sigset::untouchable(info.signal as int),
            (r == RaiseOutcome::Coalesced) <==> (!sigset::untouchable(info.signal as int)
                && !sigset::is_realtime(info.signal as int) && old(self).pending(
                info.signal as int,
            )),
            (r == RaiseOutcome::QueueFull) <==> (!sigset::untouchable(info.signal as int)
                && sigset::is_realtime(info.signal as int) && old(self).bucket(info.signal as int).len()
                >= RT_QUEUE_CAP),
            r == RaiseOutcome::Queued ==> final(self).bucket(info.signal as int) =~= old(self).bucket(
                info.signal as int,
            ).push(info) && (forall|t: int|
                t != info.signal as int ==> #[trigger] final(self).bucket(t) == old(self).bucket(t)),
            r != RaiseOutcome::Queued ==> final(self).buckets@ == old(self).buckets@,
    {
        let sig = info.signal;
        if sigset::signal_untouchable(sig) {
            return RaiseOutcome::Delivered;
        }
        let si = sig as usize;
        let rt = sigset::signal_is_realtime(sig);
        if !rt && self.buckets[si].len() > 0 {
            return RaiseOutcome::Coalesced;
        }
        if rt && self.buckets[si].len() >= RT_QUEUE_CAP {
            return RaiseOutcome::QueueFull;
        }
        let mut b = self.buckets.remove(si);
        b.push(info);
        self.buckets.insert(si, b);
        proof {
            lemma_remove_insert(old(self).buckets@, si as int, self.buckets@[si as int]);
            assert(self.buckets@ =~= old(self).buckets@.update(si as int, self.buckets@[si as int]));
            assert forall|t: int| t != si as int implies #[trigger] self.bucket(t) == old(
                self,
            ).bucket(t) by {}
            assert(self.bucket(si as int) =~= old(self).bucket(si as int).push(info));
            assert forall|t: int, i: int|
                1 <= t <= 64 && 0 <= i < self.bucket(t).len() implies (#[trigger] self.bucket(
                t,
            )[i]).signal == t && self.bucket(t)[i].wf() by {
                if t == si as int {
                    if i < old(self).bucket(t).len() {
                        assert(self.bucket(t)[i] == old(self).bucket(t)[i]);
                    } else {
                        assert(self.bucket(t)[i] == info);
                    }
                } else {
                    assert(self.bucket(t) == old(self).bucket(t));
                }
            }
        }
        RaiseOutcome::Queued
    }

    /// Drop every queued record of signal `s`. A no-op outside the valid
    /// range.
    pub fn discard(&mut self, s: i32)
        requires
            old(self).wf(),
        ensures
            final(self).wf(),
            final(self).bucket(s as int).len() == 0 || !sigset::valid_signal(s as int),
            forall|t: int| t != s as int ==> #[trigger] final(self).bucket(t) == old(self).bucket(t),
            final(self).buckets@.len() == 65,
    {
        if s < 1 || s > sigset::SIGNAL_MAX {
            return ;
        }
        let si = s as usize;
        let _ = self.buckets.remove(si);
        self.buckets.insert(si, Vec::new());
        proof {
            lemma_remove_insert(old(self).buckets@, si as int, self.buckets@[si as int]);
            assert(self.buckets@ =~= old(self).buckets@.update(si as int, self.buckets@[si as int]));
            assert forall|t: int| t != si as int implies #[trigger] self.bucket(t) == old(
                self,
            ).bucket(t) by {}
            assert(self.bucket(si as int).len() == 0);
            assert forall|t: int, i: int|
                1 <= t <= 64 && 0 <= i < self.bucket(t).len() implies (#[trigger] self.bucket(
                t,
            )[i]).signal == t && self.bucket(t)[i].wf() by {
                assert(self.bucket(t) == old(self).bucket(t));
            }
        }
    }

    /// Dequeue the oldest record of signal `s`.
    pub fn pop_first(&mut self, s: i32) -> (info: SigInfo)
        requires
            old(self).wf(),
            old(self).pending(s as int),
        ensures
            final(self).wf(),
            info == old(self).bucket(s as int)[0],
            info.signal == s,
            info.wf(),
            final(self).bucket(s as int) =~= old(self).bucket(s as int).remove(0),
            forall|t: int| t != s as int ==> #[trigger] final(self).bucket(t) == old(self).bucket(t),
    {
        let si = s as usize;
        let mut b = self.buckets.remove(si);
        let info = b.remove(0);
        self.buckets.insert(si, b);
        proof {
            lemma_remove_insert(old(self).buckets@, si as int, self.buckets@[si as int]);
            assert(self.buckets@ =~= old(self).buckets@.update(si as int, self.buckets@[si as int]));
            old(self).bucket(si as int).remove_ensures(0);
            assert forall|t: int| t != si as int implies #[trigger] self.bucket(t) == old(
                self,
            ).bucket(t) by {}
            assert(self.bucket(si as int) =~= old(self).bucket(si as int).remove(0));
            assert forall|t: int, i: int|
                1 <= t <= 64 && 0 <= i < self.bucket(t).len() implies (#[trigger] self.bucket(
                t,
            )[i]).signal == t && self.bucket(t)[i].wf() by {
                if t == si as int {
                    assert(self.bucket(t)[i] == old(self).bucket(t)[i + 1]);
                } else {
                    assert(self.bucket(t) == old(self).bucket(t));
                }
            }
        }
        info
    }

    /// The lowest-numbered pending signal not in `excluding`, if any.
    pub fn lowest_deliverable(&self, excluding: &SignalSet) -> (r: Option<i32>)
        requires
            self.wf(),
        ensures
            match r {
                Option::Some(s) => self.pending(s as int) && !excluding.has(s as int) && (forall|
                    t: int,
                |
                    1 <= t < s as int ==> !(self.pending(t) && !excluding.has(t))),
                Option::None => forall|t: int| !(self.pending(t) && !excluding.has(t)),
            },
    {
        let mut s: i32 = 1;
        while s <= sigset::SIGNAL_MAX
            invariant
                self.wf(),
                1 <= s <= 65,
                forall|t: int| 1 <= t < s as int ==> !(self.pending(t) && !excluding.has(t)),
            decreases 65 - s,
        {
            if self.buckets[s as usize].len() > 0 && !excluding.contains(s) {
                return Option::Some(s);
            }
            s = s + 1;
        }
        Option::None
    }

    /// Remove and return the lowest-numbered pending record outside the
    /// caller's blocked mask: the dequeue that serializes delivery.
    pub fn take_deliverable(&mut self, excluding: &SignalSet) -> (r: Option<(i32, SigInfo)>)
        requires
            old(self).wf(),
        ensures
            final(self).wf(),
            match r {
                Option::Some(pair) => {
                    let (s, info) = pair;
                    &&& old(self).pending(s as int)
                    &&& !excluding.has(s as int)
                    &&& forall|t: int|
                        1 <= t < s as int ==> !(old(self).pending(t) && !excluding.has(t))
                    &&& info == old(self).bucket(s as int)[0]
                    &&& info.signal == s
                    &&& final(self).bucket(s as int) =~= old(self).bucket(s as int).remove(0)
                    &&& forall|t: int|
                        t != s as int ==> #[trigger] final(self).bucket(t) == old(self).bucket(t)
                },
                Option::None => {
                    &&& !old(self).some_deliverable(*excluding)
                    &&& final(self).buckets@ == old(self).buckets@
                },
            },
    {
        match self.lowest_deliverable(excluding) {
            Option::Some(s) => {
                let info = self.pop_first(s);
                Option::Some((s, info))
            },
            Option::None => Option::None,
        }
    }
}

} // verus!
