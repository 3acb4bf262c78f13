//! The delivery engine: per-thread and per-process signal state, and the
//! checkpoint algorithm that decides what a thread must do before it
//! returns to simulated user code.
//!
//! A checkpoint first honours a pending untouchable signal, then drains
//! pending signals whose disposition ignores them, then selects the
//! lowest-numbered deliverable signal — preferring the thread-directed
//! queue slot over the process-directed one for the same number — and
//! carries out its disposition: invoke a handler (with the mask and
//! stack switches that entails) or report the default effect to the
//! process-lifecycle collaborator. Blocking syscall emulations register
//! a region first; a handler interrupts an interruptible region, a
//! default terminate or stop aborts any region, and ignored signals
//! never interrupt anything.

use vstd::prelude::*;

use crate::abi;
use crate::abi::Disposition;
use crate::abi::sigaction;
use crate::altstack::AltStackState;
use crate::altstack::StackConfig;
use crate::altstack::StackSelection;
use crate::dispositions::DispositionTable;
use crate::errors::SignalError;
use crate::pending::PendingSignals;
use crate::pending::RT_QUEUE_CAP;
use crate::pending::RaiseOutcome;
use crate::sigset;
use crate::sigset::DefaultAction;
use crate::sigset::SignalSet;
use crate::sinfo::SigInfo;

verus! {

/// What a thread restores when the handler it entered returns.
#[derive(Clone, Copy, PartialEq, Eq, Structural, Debug)]
pub struct HandlerFrame {
    /// The delivered signal.
    pub signal: i32,
    /// The blocked mask to restore on return.
    pub saved_mask: SignalSet,
    /// Which stack the handler ran on.
    pub stack: StackSelection,
    /// An autodisarmed alternate-stack configuration to restore.
    pub altstack_restore: Option<StackConfig>,
}

/// A blocking syscall emulation in progress on a thread.
#[derive(Clone, Copy, PartialEq, Eq, Structural, Debug)]
pub struct BlockingState {
    /// Whether a handler may interrupt the region at all.
    pub interruptible: bool,
    /// Set once a handler has interrupted the region; the flag is the
    /// delivered action's restart request.
    pub interrupted: Option<bool>,
}

/// The signal state a thread owns exclusively: its blocked mask, its
/// thread-directed pending set, its alternate stack, the stack of
/// handler frames it is inside, and its blocking region, if any.
#[derive(Debug)]
pub struct ThreadSignalState {
    pub tid: i32,
    pub blocked: SignalSet,
    pub pending: PendingSignals,
    pub altstack: AltStackState,
    pub frames: Vec<HandlerFrame>,
    pub blocking: Option<BlockingState>,
}

/// The signal state shared by all threads of a process: the disposition
/// table, the process-directed pending set, and an untouchable signal
/// awaiting its unconditional effect.
#[derive(Debug)]
pub struct ProcessSignalState {
    pub pid: i32,
    pub table: DispositionTable,
    pub pending: PendingSignals,
    pub forced: Option<i32>,
}

/// What a checkpoint tells the thread's control path to do.
#[derive(Clone, Copy, PartialEq, Eq, Structural, Debug)]
pub enum CheckpointOutcome {
    /// Nothing to deliver: resume user code, or keep waiting if a
    /// blocking region is in progress.
    Continue,
    /// Invoke the guest handler with this metadata, on this stack; the
    /// handler mask is already installed.
    EnterHandler { signal: i32, info: SigInfo, action: sigaction, stack: StackSelection },
    /// Report to the process-lifecycle collaborator that the process
    /// terminates (with a core dump when the default action asks one).
    Terminated { signal: i32, info: Option<SigInfo>, core_dump: bool },
    /// Report that the process stops.
    Stopped { signal: i32, info: Option<SigInfo> },
}

/// How a blocking region ended.
#[derive(Clone, Copy, PartialEq, Eq, Structural, Debug)]
pub enum RegionOutcome {
    /// The blocking condition was satisfied; no handler ran.
    Completed,
    /// A handler interrupted the region. With `restart` the emulation
    /// re-issues the syscall; without it the guest sees the interrupted
    /// error.
    Interrupted { restart: bool },
}

impl ThreadSignalState {
    /// A thread's state is sound when its pending set is and its blocked
    /// mask never holds an untouchable signal.
    pub open spec fn wf(self) -> bool {
        &&& self.pending.wf()
        &&& forall|s: int| sigset::untouchable(s) ==> !(#[trigger] self.blocked.has(s))
    }

    /// A fresh thread: `blocked` is inherited from the creating thread,
    /// nothing pending, no alternate stack, no handler frames, no
    /// blocking region.
    pub fn new(tid: i32, inherited_mask: SignalSet) -> (r: ThreadSignalState)
        requires
            forall|s: int| sigset::untouchable(s) ==> !inherited_mask.has(s),
        ensures
            r.wf(),
            r.tid == tid,
            r.blocked == inherited_mask,
            forall|s: int| 0 <= s <= 64 ==> (#[trigger] r.pending.bucket(s)).len() == 0,
            r.altstack.config.disabled(),
            !r.altstack.in_use,
            r.frames@.len() == 0,
            r.blocking is None,
    {
        ThreadSignalState {
            tid,
            blocked: inherited_mask,
            pending: PendingSignals::new(),
            altstack: AltStackState::new(),
            frames: Vec::new(),
            blocking: Option::None,
        }
    }
}

impl ProcessSignalState {
    /// A process's shared state is sound when the table and pending set
    /// are, and a forced signal can only be an untouchable one.
    pub open spec fn wf(self) -> bool {
        &&& self.table.wf()
        &&& self.pending.wf()
        &&& self.forced matches Option::Some(k) ==> sigset::untouchable(self.forced->Some_0 as int)
    }

    /// Fresh shared state: every disposition default, nothing pending.
    pub fn new(pid: i32) -> (r: ProcessSignalState)
        ensures
            r.wf(),
            r.pid == pid,
            forall|s: int| (#[trigger] r.table.action(s)).disposition() == Disposition::Default,
            forall|s: int| 0 <= s <= 64 ==> (#[trigger] r.pending.bucket(s)).len() == 0,
            r.forced is None,
    {
        ProcessSignalState {
            pid,
            table: DispositionTable::new(),
            pending: PendingSignals::new(),
            forced: Option::None,
        }
    }
}

/// Signal `s` could be delivered to this thread now: it is pending in
/// the thread's or the process's set and the thread does not block it.
pub open spec fn eligible(th: ThreadSignalState, pr: ProcessSignalState, s: int) -> bool {
    &&& sigset::valid_signal(s)
    &&& !th.blocked.has(s)
    &&& (th.pending.pending(s) || pr.pending.pending(s))
}

/// The process's current reaction to `s` is to discard it: an ignore
/// disposition, or a default disposition whose default action is to
/// ignore or to continue.
///
/// Treating a default continue like a default ignore at a checkpoint is
/// a deliberate choice: the continue effect concerns the stop state that
/// the process-lifecycle collaborator owns, a checkpoint outcome has no
/// variant for it, and — like ignored signals — it must never interrupt
/// a blocking region.
pub open spec fn ignored_at(pr: ProcessSignalState, s: int) -> bool {
    let d = pr.table.action(s).disposition();
    ||| d == Disposition::Ignore
    ||| (d == Disposition::Default && (sigset::spec_default_action(s) == DefaultAction::Ignore
        || sigset::spec_default_action(s) == DefaultAction::Continue))
}

/// `s` is the signal a checkpoint acts on: the lowest-numbered eligible
/// signal that is not discarded by its disposition.
pub open spec fn selected(th: ThreadSignalState, pr: ProcessSignalState, s: int) -> bool {
    &&& eligible(th, pr, s)
    &&& !ignored_at(pr, s)
    &&& forall|u: int| 1 <= u < s ==> !(eligible(th, pr, u) && !ignored_at(pr, u))
}

/// No eligible signal survives its disposition: the checkpoint has
/// nothing to act on.
pub open spec fn no_selectable(th: ThreadSignalState, pr: ProcessSignalState) -> bool {
    forall|s: int| !(eligible(th, pr, s) && !ignored_at(pr, s))
}

/// The pending sets after the discard phase: every eligible signal below
/// `bound` whose disposition discards it has been drained from both
/// holders; every other queue is untouched.
pub open spec fn drained_pending(
    old_th: ThreadSignalState,
    old_pr: ProcessSignalState,
    th: ThreadSignalState,
    pr: ProcessSignalState,
    bound: int,
) -> bool {
    &&& forall|t: int|
        #[trigger] th.pending.bucket(t) == (if 1 <= t < bound && eligible(old_th, old_pr, t)
            && ignored_at(old_pr, t) {
            Seq::<SigInfo>::empty()
        } else {
            old_th.pending.bucket(t)
        })
    &&& forall|t: int|
        #[trigger] pr.pending.bucket(t) == (if 1 <= t < bound && eligible(old_th, old_pr, t)
            && ignored_at(old_pr, t) {
            Seq::<SigInfo>::empty()
        } else {
            old_pr.pending.bucket(t)
        })
}

/// The thread state is unchanged apart from its pending set.
pub open spec fn same_thread_but_pending(a: ThreadSignalState, b: ThreadSignalState) -> bool {
    &&& a.tid == b.tid
    &&& a.blocked == b.blocked
    &&& a.altstack == b.altstack
    &&& a.frames@ == b.frames@
    &&& a.blocking == b.blocking
}

/// The process state is unchanged apart from its pending set.
pub open spec fn same_process_but_pending(a: ProcessSignalState, b: ProcessSignalState) -> bool {
    &&& a.pid == b.pid
    &&& a.table.actions@ == b.table.actions@
    &&& a.forced == b.forced
}

/// Find the signal a checkpoint acts on, without touching any state.
fn select_signal(th: &ThreadSignalState, pr: &ProcessSignalState) -> (r: Option<i32>)
    requires
        th.wf(),
        pr.wf(),
    ensures
        match r {
            Option::Some(s) => selected(*th, *pr, s as int),
            Option::None => no_selectable(*th, *pr),
        },
{
    let mut s: i32 = 1;
    while s <= sigset::SIGNAL_MAX
        invariant
            th.wf(),
            pr.wf(),
            1 <= s <= 65,
            forall|u: int| 1 <= u < s as int ==> !(eligible(*th, *pr, u) && !ignored_at(*pr, u)),
        decreases 65 - s,
    {
        if (th.pending.is_pending(s) || pr.pending.is_pending(s)) && !th.blocked.contains(s) {
            let a = pr.table.get(s);
            let discard = match a.disposition_of() {
                Disposition::Ignore => true,
                Disposition::Handler => false,
                Disposition::Default => match sigset::default_action(s) {
                    DefaultAction::Ignore => true,
                    DefaultAction::Continue => true,
                    _ => false,
                },
            };
            if !discard {
                return Option::Some(s);
            }
        }
        s = s + 1;
    }
    Option::None
}

/// The metadata record a delivery of `s` hands over: the head of the
/// thread-directed queue when the thread holds one, else the head of the
/// process-directed queue.
pub open spec fn delivered_info(
    old_th: ThreadSignalState,
    old_pr: ProcessSignalState,
    s: int,
) -> SigInfo {
    if old_th.pending.pending(s) {
        old_th.pending.bucket(s)[0]
    } else {
        old_pr.pending.bucket(s)[0]
    }
}

/// The pending sets after one record of `s` was dequeued at a
/// checkpoint: the discard phase ran below `s`, and `s` itself lost its
/// oldest record from the thread slot when the thread held one, else
/// from the process slot.
pub open spec fn pending_after_delivery(
    old_th: ThreadSignalState,
    old_pr: ProcessSignalState,
    th: ThreadSignalState,
    pr: ProcessSignalState,
    s: int,
) -> bool {
    &&& forall|t: int|
        t != s ==> #[trigger] th.pending.bucket(t) == (if 1 <= t < s && eligible(old_th, old_pr, t)
            && ignored_at(old_pr, t) {
            Seq::<SigInfo>::empty()
        } else {
            old_th.pending.bucket(t)
        })
    &&& forall|t: int|
        t != s ==> #[trigger] pr.pending.bucket(t) == (if 1 <= t < s && eligible(old_th, old_pr, t)
            && ignored_at(old_pr, t) {
            Seq::<SigInfo>::empty()
        } else {
            old_pr.pending.bucket(t)
        })
    &&& th.pending.bucket(s) == (if old_th.pending.pending(s) {
        old_th.pending.bucket(s).remove(0)
    } else {
        old_th.pending.bucket(s)
    })
    &&& pr.pending.bucket(s) == (if old_th.pending.pending(s) {
        old_pr.pending.bucket(s)
    } else {
        old_pr.pending.bucket(s).remove(0)
    })
}

/// The handler mask: the signals blocked before delivery, the action's
/// own mask, and the delivered signal itself unless the action declines
/// to defer it — with the untouchable signals dropped.
pub open spec fn handler_mask_ok(
    old_blocked: SignalSet,
    a: sigaction,
    s: int,
    new_blocked: SignalSet,
) -> bool {
    forall|t: int|
        #[trigger] new_blocked.has(t) <==> ((old_blocked.has(t) || (SignalSet {
            bits: a.sa_mask,
        }).has(t) || (t == s && !abi::has_flag(a.sa_flags, abi::SA_NODEFER)))
            && !sigset::untouchable(t))
}

/// A checkpoint that honoured a forced untouchable signal `k`: the
/// effect of `k`'s default action is reported unconditionally, any
/// blocking region is aborted, and no queue is touched.
pub open spec fn forced_rel(
    old_th: ThreadSignalState,
    old_pr: ProcessSignalState,
    th: ThreadSignalState,
    pr: ProcessSignalState,
    r: CheckpointOutcome,
) -> bool {
    let k = old_pr.forced->Some_0;
    &&& if sigset::spec_default_action(k as int) == DefaultAction::Stop {
        r == (CheckpointOutcome::Stopped { signal: k, info: Option::None })
    } else {
        r == (CheckpointOutcome::Terminated {
            signal: k,
            info: Option::None,
            core_dump: sigset::spec_default_action(k as int) == DefaultAction::CoreDump,
        })
    }
    &&& th.tid == old_th.tid
    &&& th.blocked == old_th.blocked
    &&& th.pending.buckets@ == old_th.pending.buckets@
    &&& th.altstack == old_th.altstack
    &&& th.frames@ == old_th.frames@
    &&& th.blocking is None
    &&& pr.pid == old_pr.pid
    &&& pr.table.actions@ == old_pr.table.actions@
    &&& pr.pending.buckets@ == old_pr.pending.buckets@
    &&& pr.forced is None
}

/// A checkpoint that entered a handler for the selected signal `s`.
pub open spec fn handler_rel(
    old_th: ThreadSignalState,
    old_pr: ProcessSignalState,
    th: ThreadSignalState,
    pr: ProcessSignalState,
    r: CheckpointOutcome,
    s: int,
) -> bool {
    let a = old_pr.table.action(s);
    let alt = abi::has_flag(a.sa_flags, abi::SA_ONSTACK) && !old_th.altstack.config.disabled()
        && !old_th.altstack.in_use;
    let sel = if alt {
        StackSelection::Alternate
    } else {
        StackSelection::Normal
    };
    let restore = if alt && old_th.altstack.config.autodisarm() {
        Option::Some(old_th.altstack.config)
    } else {
        Option::<StackConfig>::None
    };
    &&& r == (CheckpointOutcome::EnterHandler {
        signal: s as i32,
        info: delivered_info(old_th, old_pr, s),
        action: a,
        stack: sel,
    })
    &&& pending_after_delivery(old_th, old_pr, th, pr, s)
    &&& handler_mask_ok(old_th.blocked, a, s, th.blocked)
    &&& th.frames@ == old_th.frames@.push(
        HandlerFrame {
            signal: s as i32,
            saved_mask: old_th.blocked,
            stack: sel,
            altstack_restore: restore,
        },
    )
    &&& th.altstack == (if !alt {
        old_th.altstack
    } else if old_th.altstack.config.autodisarm() {
        AltStackState {
            config: StackConfig { sp: 0, flags: crate::altstack::SS_DISABLE, size: 0 },
            in_use: false,
        }
    } else {
        AltStackState { config: old_th.altstack.config, in_use: true }
    })
    &&& th.tid == old_th.tid
    &&& th.blocking == (match old_th.blocking {
        Option::None => Option::<BlockingState>::None,
        Option::Some(bs) => Option::Some(
            BlockingState {
                interruptible: bs.interruptible,
                interrupted: Option::Some(abi::has_flag(a.sa_flags, abi::SA_RESTART)),
            },
        ),
    })
    &&& if abi::has_flag(a.sa_flags, abi::SA_RESETHAND) {
        &&& pr.table.action(s).disposition() == Disposition::Default
        &&& forall|t: int| t != s ==> #[trigger] pr.table.action(t) == old_pr.table.action(t)
        &&& pr.table.actions@.len() == 65
    } else {
        pr.table.actions@ == old_pr.table.actions@
    }
    &&& pr.pid == old_pr.pid
    &&& pr.forced is None
}

/// A checkpoint that hit a default disposition whose action terminates
/// or stops the process: the effect and the dequeued metadata are
/// reported, and any blocking region is aborted.
pub open spec fn default_rel(
    old_th: ThreadSignalState,
    old_pr: ProcessSignalState,
    th: ThreadSignalState,
    pr: ProcessSignalState,
    r: CheckpointOutcome,
    s: int,
) -> bool {
    let da = sigset::spec_default_action(s);
    let info = delivered_info(old_th, old_pr, s);
    &&& if da == DefaultAction::Stop {
        r == (CheckpointOutcome::Stopped { signal: s as i32, info: Option::Some(info) })
    } else {
        r == (CheckpointOutcome::Terminated {
            signal: s as i32,
            info: Option::Some(info),
            core_dump: da == DefaultAction::CoreDump,
        })
    }
    &&& pending_after_delivery(old_th, old_pr, th, pr, s)
    &&& th.tid == old_th.tid
    &&& th.blocked == old_th.blocked
    &&& th.altstack == old_th.altstack
    &&& th.frames@ == old_th.frames@
    &&& th.blocking is None
    &&& pr.pid == old_pr.pid
    &&& pr.table.actions@ == old_pr.table.actions@
    &&& pr.forced is None
}

/// What one delivery of the selected signal `s` does, by its
/// disposition. A handler delivery inside a non-interruptible blocking
/// region is held back: the thread stays blocked and the record stays
/// queued.
pub open spec fn delivery_rel(
    old_th: ThreadSignalState,
    old_pr: ProcessSignalState,
    th: ThreadSignalState,
    pr: ProcessSignalState,
    r: CheckpointOutcome,
    s: int,
) -> bool {
    let a = old_pr.table.action(s);
    if a.disposition() == Disposition::Handler {
        if old_th.blocking matches Option::Some(bs) && !bs.interruptible {
            &&& r == CheckpointOutcome::Continue
            &&& drained_pending(old_th, old_pr, th, pr, s)
            &&& same_thread_but_pending(old_th, th)
            &&& same_process_but_pending(old_pr, pr)
        } else {
            handler_rel(old_th, old_pr, th, pr, r, s)
        }
    } else {
        default_rel(old_th, old_pr, th, pr, r, s)
    }
}

/// The full checkpoint contract, relating the states before and after
/// one checkpoint to its outcome.
pub open spec fn checkpoint_rel(
    old_th: ThreadSignalState,
    old_pr: ProcessSignalState,
    th: ThreadSignalState,
    pr: ProcessSignalState,
    r: CheckpointOutcome,
) -> bool {
    if old_pr.forced is Some {
        forced_rel(old_th, old_pr, th, pr, r)
    } else if no_selectable(old_th, old_pr) {
        &&& r == CheckpointOutcome::Continue
        &&& drained_pending(old_th, old_pr, th, pr, 65)
        &&& same_thread_but_pending(old_th, th)
        &&& same_process_but_pending(old_pr, pr)
    } else {
        forall|s: int| selected(old_th, old_pr, s) ==> delivery_rel(old_th, old_pr, th, pr, r, s)
    }
}

/// The discard phase: drop every eligible signal below `bound` whose
/// disposition discards it, from both pending sets.
fn drain_ignored(th: &mut ThreadSignalState, pr: &mut ProcessSignalState, bound: i32)
    requires
        old(th).wf(),
        old(pr).wf(),
        1 <= bound <= 65,
    ensures
        final(th).wf(),
        final(pr).wf(),
        drained_pending(*old(th), *old(pr), *final(th), *final(pr), bound as int),
        same_thread_but_pending(*old(th), *final(th)),
        same_process_but_pending(*old(pr), *final(pr)),
{
    let mut s: i32 = 1;
    while s < bound
        invariant
            th.wf(),
            pr.wf(),
            1 <= s <= bound,
            bound <= 65,
            same_thread_but_pending(*old(th), *th),
            same_process_but_pending(*old(pr), *pr),
            forall|t: int|
                #[trigger] th.pending.bucket(t) == (if 1 <= t < s as int && eligible(
                    *old(th),
                    *old(pr),
                    t,
                ) && ignored_at(*old(pr), t) {
                    Seq::<SigInfo>::empty()
                } else {
                    old(th).pending.bucket(t)
                }),
            forall|t: int|
                #[trigger] pr.pending.bucket(t) == (if 1 <= t < s as int && eligible(
                    *old(th),
                    *old(pr),
                    t,
                ) && ignored_at(*old(pr), t) {
                    Seq::<SigInfo>::empty()
                } else {
                    old(pr).pending.bucket(t)
                }),
        decreases bound - s,
    {
        if (th.pending.is_pending(s) || pr.pending.is_pending(s)) && !th.blocked.contains(s) {
            let a = pr.table.get(s);
            let discard = match a.disposition_of() {
                Disposition::Ignore => true,
                Disposition::Handler => false,
                Disposition::Default => match sigset::default_action(s) {
                    DefaultAction::Ignore => true,
                    DefaultAction::Continue => true,
                    _ => false,
                },
            };
            if discard {
                th.pending.discard(s);
                pr.pending.discard(s);
            }
        }
        s = s + 1;
    }
}

/// How one raise changed a holder's pending set: an untouchable signal
/// is never queued, a standard signal already pending coalesces, a
/// real-time signal at capacity is refused, and otherwise the record
/// joins its queue in FIFO order.
pub open spec fn raise_updates_pending(
    old_p: PendingSignals,
    new_p: PendingSignals,
    info: SigInfo,
    r: RaiseOutcome,
) -> bool {
    let s = info.signal as int;
    &&& ((r == RaiseOutcome::Delivered) <==> sigset::untouchable(s))
    &&& ((r == RaiseOutcome::Coalesced) <==> (!sigset::untouchable(s) && !sigset::is_realtime(s)
        && old_p.pending(s)))
    &&& ((r == RaiseOutcome::QueueFull) <==> (!sigset::untouchable(s) && sigset::is_realtime(s)
        && old_p.bucket(s).len() >= RT_QUEUE_CAP))
    &&& (r == RaiseOutcome::Queued ==> new_p.bucket(s) == old_p.bucket(s).push(info) && (forall|
        t: int,
    |
        t != s ==> #[trigger] new_p.bucket(t) == old_p.bucket(t)))
    &&& (r != RaiseOutcome::Queued ==> new_p.buckets@ == old_p.buckets@)
}

/// How a raise changed the forced-signal slot: only the delivery of an
/// untouchable signal touches it, and a pending kill is never displaced
/// by a stop.
pub open spec fn forced_after_raise(
    old_f: Option<i32>,
    new_f: Option<i32>,
    info: SigInfo,
    r: RaiseOutcome,
) -> bool {
    if r == RaiseOutcome::Delivered {
        if info.signal == sigset::SIGKILL {
            new_f == Option::Some(sigset::SIGKILL)
        } else if old_f is None {
            new_f == Option::Some(info.signal)
        } else {
            new_f == old_f
        }
    } else {
        new_f == old_f
    }
}

/// How a mask change applies to the current blocked set.
#[derive(Clone, Copy, PartialEq, Eq, Structural, Debug)]
pub enum MaskHow {
    /// Add the given signals to the blocked set.
    Block,
    /// Take the given signals out of the blocked set.
    Unblock,
    /// Replace the blocked set with the given signals.
    SetMask,
}

/// The whole delivery engine of one simulated process: the shared state
/// and the per-thread states, addressed by thread id.
#[derive(Debug)]
pub struct DeliveryEngine {
    pub process: ProcessSignalState,
    pub threads: Vec<ThreadSignalState>,
}

impl DeliveryEngine {
    /// Shared and per-thread state sound, and thread ids unique.
    pub open spec fn wf(self) -> bool {
        &&& self.process.wf()
        &&& forall|i: int| 0 <= i < self.threads@.len() ==> (#[trigger] self.threads@[i]).wf()
        &&& forall|i: int, j: int|
            0 <= i < j < self.threads@.len() ==> (#[trigger] self.threads@[i]).tid != (
            #[trigger] self.threads@[j]).tid
    }

    /// Whether a live thread carries this id.
    pub open spec fn has_tid(self, tid: i32) -> bool {
        exists|i: int| 0 <= i < self.threads@.len() && (#[trigger] self.threads@[i]).tid == tid
    }

    /// The index of the thread with this id.
    pub open spec fn tidx(self, tid: i32) -> int {
        choose|i: int| 0 <= i < self.threads@.len() && (#[trigger] self.threads@[i]).tid == tid
    }

    /// The state of the thread with this id.
    pub open spec fn thread_of(self, tid: i32) -> ThreadSignalState {
        self.threads@[self.tidx(tid)]
    }

    /// Every thread but the one with id `tid` is unchanged between `a`
    /// and `b`, and the thread population is the same.
    pub open spec fn others_unchanged(a: DeliveryEngine, b: DeliveryEngine, tid: i32) -> bool {
        &&& b.threads@.len() == a.threads@.len()
        &&& b.tidx(tid) == a.tidx(tid)
        &&& forall|j: int|
            0 <= j < a.threads@.len() && j != a.tidx(tid) ==> #[trigger] b.threads@[j]
                == a.threads@[j]
    }

    /// A fresh engine: one process with one initial thread, nothing
    /// pending, every disposition default, an empty blocked mask.
    pub fn new(pid: i32, first_tid: i32) -> (r: DeliveryEngine)
        ensures
            r.wf(),
            r.process.pid == pid,
            r.process.forced is None,
            forall|s: int|
                (#[trigger] r.process.table.action(s)).disposition() == Disposition::Default,
            forall|s: int| 0 <= s <= 64 ==> (#[trigger] r.process.pending.bucket(s)).len() == 0,
            r.threads@.len() == 1,
            r.threads@[0].tid == first_tid,
            r.has_tid(first_tid),
            forall|s: int| !r.threads@[0].blocked.has(s),
            forall|s: int| 0 <= s <= 64 ==> (#[trigger] r.threads@[0].pending.bucket(s)).len()
                == 0,
            r.threads@[0].frames@.len() == 0,
            r.threads@[0].blocking is None,
            r.threads@[0].altstack.config.disabled(),
            !r.threads@[0].altstack.in_use,
    {
        let mut threads: Vec<ThreadSignalState> = Vec::new();
        let mask = SignalSet::empty();
        threads.push(ThreadSignalState::new(first_tid, mask));
        let r = DeliveryEngine { process: ProcessSignalState::new(pid), threads };
        proof {
            assert(r.threads@[0].tid == first_tid);
        }
        r
    }

    /// Create a thread: the new thread inherits the creator's blocked
    /// mask, and starts with nothing pending, no alternate stack and no
    /// handler frames.
    pub fn spawn_thread(&mut self, creator_tid: i32, new_tid: i32)
        requires
            old(self).wf(),
            old(self).has_tid(creator_tid),
            !old(self).has_tid(new_tid),
        ensures
            final(self).wf(),
            final(self).has_tid(new_tid),
            final(self).threads@.len() == old(self).threads@.len() + 1,
            forall|j: int|
                0 <= j < old(self).threads@.len() ==> #[trigger] final(self).threads@[j] == old(
                    self,
                ).threads@[j],
            final(self).thread_of(new_tid).tid == new_tid,
            final(self).thread_of(new_tid).blocked == old(self).thread_of(creator_tid).blocked,
            forall|s: int|
                0 <= s <= 64 ==> (#[trigger] final(self).thread_of(new_tid).pending.bucket(
                    s,
                )).len() == 0,
            final(self).thread_of(new_tid).frames@.len() == 0,
            final(self).thread_of(new_tid).blocking is None,
            final(self).thread_of(new_tid).altstack.config.disabled(),
            !final(self).thread_of(new_tid).altstack.in_use,
            final(self).process == old(self).process,
    {
        let i = self.find_thread(creator_tid);
        let mask = self.threads[i].blocked;
        let fresh = ThreadSignalState::new(new_tid, mask);
        self.threads.push(fresh);
        proof {
            let n = old(self).threads@.len() as int;
            assert(self.threads@[n].tid == new_tid);
            lemma_tidx_is(*self, new_tid, n);
            assert forall|a: int, b: int|
                0 <= a < b < self.threads@.len() implies (#[trigger] self.threads@[a]).tid != (
            #[trigger] self.threads@[b]).tid by {
                if b == n {
                    if self.threads@[a].tid == new_tid {
                        lemma_tidx_is(*old(self), new_tid, a);
                        assert(old(self).has_tid(new_tid));
                    }
                }
            }
            lemma_tidx_is(*self, creator_tid, old(self).tidx(creator_tid));
        }
    }

    /// Destroy a thread. Its thread-directed pending signals are
    /// discarded with it, not promoted to the process.
    pub fn exit_thread(&mut self, tid: i32)
        requires
            old(self).wf(),
            old(self).has_tid(tid),
        ensures
            final(self).wf(),
            !final(self).has_tid(tid),
            final(self).threads@ == old(self).threads@.remove(old(self).tidx(tid)),
            final(self).process == old(self).process,
    {
        let i = self.find_thread(tid);
        let _ = self.threads.remove(i);
        proof {
            assert forall|j: int|
                0 <= j < self.threads@.len() implies !(#[trigger] self.threads@[j]).tid == tid
                || self.threads@[j].tid != tid by {
                if j < i as int {
                    assert(self.threads@[j] == old(self).threads@[j]);
                } else {
                    assert(self.threads@[j] == old(self).threads@[j + 1]);
                }
            }
            assert forall|j: int|
                0 <= j < self.threads@.len() implies (#[trigger] self.threads@[j]).tid != tid by {
                if j < i as int {
                    assert(self.threads@[j] == old(self).threads@[j]);
                    if self.threads@[j].tid == tid {
                        lemma_tidx_is(*old(self), tid, j);
                    }
                } else {
                    assert(self.threads@[j] == old(self).threads@[j + 1]);
                    if self.threads@[j].tid == tid {
                        lemma_tidx_is(*old(self), tid, j + 1);
                    }
                }
            }
            assert forall|a: int, b: int|
                0 <= a < b < self.threads@.len() implies (#[trigger] self.threads@[a]).tid != (
            #[trigger] self.threads@[b]).tid by {
                let a0: int = if a < i as int {
                    a
                } else {
                    a + 1
                };
                let b0: int = if b < i as int {
                    b
                } else {
                    b + 1
                };
                assert(self.threads@[a] == old(self).threads@[a0]);
                assert(self.threads@[b] == old(self).threads@[b0]);
            }
        }
    }

    /// Find the index of the thread with id `tid`.
    fn find_thread(&self, tid: i32) -> (r: usize)
        requires
            self.wf(),
            self.has_tid(tid),
        ensures
            r as int == self.tidx(tid),
            (r as int) < self.threads@.len(),
            self.threads@[r as int].tid == tid,
    {
        let n = self.threads.len();
        let mut i: usize = 0;
        while i < n
            invariant
                self.wf(),
                self.has_tid(tid),
                n == self.threads@.len(),
                i <= n,
                forall|j: int| 0 <= j < i as int ==> (#[trigger] self.threads@[j]).tid != tid,
            decreases n - i,
        {
            if self.threads[i].tid == tid {
                proof {
                    lemma_tidx_is(*self, tid, i as int);
                }
                return i;
            }
            i = i + 1;
        }
        proof {
            let w = choose|k: int|
                0 <= k < self.threads@.len() && (#[trigger] self.threads@[k]).tid == tid;
            assert(self.threads@[w].tid == tid);
            assert(false);
        }
        0
    }

    /// Run one checkpoint for the thread with id `tid`: the call every
    /// return-to-user-code path makes.
    pub fn checkpoint(&mut self, tid: i32) -> (r: CheckpointOutcome)
        requires
            old(self).wf(),
            old(self).has_tid(tid),
        ensures
            final(self).wf(),
            final(self).has_tid(tid),
            DeliveryEngine::others_unchanged(*old(self), *final(self), tid),
            final(self).thread_of(tid).tid == tid,
            checkpoint_rel(
                old(self).thread_of(tid),
                old(self).process,
                final(self).thread_of(tid),
                final(self).process,
                r,
            ),
    {
        let i = self.find_thread(tid);
        let mut th = self.threads.remove(i);
        let r = checkpoint_core(&mut th, &mut self.process);
        self.threads.insert(i, th);
        proof {
            crate::pending::lemma_remove_insert(
                old(self).threads@,
                i as int,
                self.threads@[i as int],
            );
            assert(self.threads@ =~= old(self).threads@.update(i as int, self.threads@[i as int]));
            lemma_engine_update(*old(self), *self, tid, i as int);
        }
        r
    }

    /// Mark a thread-directed signal pending for the thread with id
    /// `tid`, carrying `info`, and honour an untouchable signal at once.
    pub fn raise_thread(&mut self, tid: i32, info: SigInfo) -> (r: RaiseOutcome)
        requires
            old(self).wf(),
            old(self).has_tid(tid),
            info.wf(),
        ensures
            final(self).wf(),
            final(self).has_tid(tid),
            DeliveryEngine::others_unchanged(*old(self), *final(self), tid),
            raise_updates_pending(
                old(self).thread_of(tid).pending,
                final(self).thread_of(tid).pending,
                info,
                r,
            ),
            same_thread_but_pending(old(self).thread_of(tid), final(self).thread_of(tid)),
            final(self).process.pending.buckets@ == old(self).process.pending.buckets@,
            final(self).process.table.actions@ == old(self).process.table.actions@,
            final(self).process.pid == old(self).process.pid,
            forced_after_raise(old(self).process.forced, final(self).process.forced, info, r),
    {
        let i = self.find_thread(tid);
        let mut th = self.threads.remove(i);
        let r = th.pending.raise(info);
        self.threads.insert(i, th);
        match r {
            RaiseOutcome::Delivered => {
                self.apply_forced(info.signal);
            },
            _ => {},
        }
        proof {
            crate::pending::lemma_remove_insert(
                old(self).threads@,
                i as int,
                self.threads@[i as int],
            );
            assert(self.threads@ =~= old(self).threads@.update(i as int, self.threads@[i as int]));
            lemma_engine_update(*old(self), *self, tid, i as int);
        }
        r
    }

    /// Mark a process-directed signal pending, carrying `info`, and
    /// honour an untouchable signal at once. Whichever eligible thread
    /// reaches a checkpoint first will dequeue it.
    pub fn raise_process(&mut self, info: SigInfo) -> (r: RaiseOutcome)
        requires
            old(self).wf(),
            info.wf(),
        ensures
            final(self).wf(),
            final(self).threads@ == old(self).threads@,
            raise_updates_pending(
                old(self).process.pending,
                final(self).process.pending,
                info,
                r,
            ),
            final(self).process.table.actions@ == old(self).process.table.actions@,
            final(self).process.pid == old(self).process.pid,
            forced_after_raise(old(self).process.forced, final(self).process.forced, info, r),
    {
        let r = self.process.pending.raise(info);
        match r {
            RaiseOutcome::Delivered => {
                self.apply_forced(info.signal);
            },
            _ => {},
        }
        r
    }

    /// Record an untouchable signal for its unconditional effect at the
    /// next checkpoint. A pending kill takes precedence over a stop.
    fn apply_forced(&mut self, signal: i32)
        requires
            sigset::untouchable(signal as int),
        ensures
            final(self).threads@ == old(self).threads@,
            final(self).process.pending == old(self).process.pending,
            final(self).process.table == old(self).process.table,
            final(self).process.pid == old(self).process.pid,
            final(self).process.forced == (if signal == sigset::SIGKILL {
                Option::Some(sigset::SIGKILL)
            } else if old(self).process.forced is None {
                Option::Some(signal)
            } else {
                old(self).process.forced
            }),
    {
        if signal == sigset::SIGKILL {
            self.process.forced = Option::Some(sigset::SIGKILL);
        } else {
            match self.process.forced {
                Option::None => {
                    self.process.forced = Option::Some(signal);
                },
                Option::Some(_) => {},
            }
        }
    }

    /// Change the blocked mask of the thread with id `tid`, returning
    /// the previous mask. The untouchable signals are silently dropped
    /// from any mask that would block them.
    pub fn set_mask(&mut self, tid: i32, how: MaskHow, set: SignalSet) -> (prev: SignalSet)
        requires
            old(self).wf(),
            old(self).has_tid(tid),
        ensures
            final(self).wf(),
            final(self).has_tid(tid),
            DeliveryEngine::others_unchanged(*old(self), *final(self), tid),
            prev == old(self).thread_of(tid).blocked,
            forall|s: int|
                #[trigger] final(self).thread_of(tid).blocked.has(s) <==> (match how {
                    MaskHow::Block => (old(self).thread_of(tid).blocked.has(s) || set.has(s))
                        && !sigset::untouchable(s),
                    MaskHow::Unblock => old(self).thread_of(tid).blocked.has(s) && !set.has(s),
                    MaskHow::SetMask => set.has(s) && !sigset::untouchable(s),
                }),
            final(self).thread_of(tid).tid == tid,
            final(self).thread_of(tid).pending.buckets@ == old(self).thread_of(tid).pending.buckets@,
            final(self).thread_of(tid).altstack == old(self).thread_of(tid).altstack,
            final(self).thread_of(tid).frames@ == old(self).thread_of(tid).frames@,
            final(self).thread_of(tid).blocking == old(self).thread_of(tid).blocking,
            final(self).process == old(self).process,
    {
        let i = self.find_thread(tid);
        let mut th = self.threads.remove(i);
        let prev = th.blocked;
        th.blocked = match how {
            MaskHow::Block => prev.union(set).scrub(),
            MaskHow::Unblock => prev.difference(set),
            MaskHow::SetMask => set.scrub(),
        };
        self.threads.insert(i, th);
        proof {
            crate::pending::lemma_remove_insert(
                old(self).threads@,
                i as int,
                self.threads@[i as int],
            );
            assert(self.threads@ =~= old(self).threads@.update(i as int, self.threads@[i as int]));
            lemma_engine_update(*old(self), *self, tid, i as int);
        }
        prev
    }

    /// Install or query the alternate-stack configuration of the thread
    /// with id `tid`, returning the previous configuration as reported.
    pub fn configure_altstack(&mut self, tid: i32, new: Option<StackConfig>) -> (r: Result<
        StackConfig,
        SignalError,
    >)
        requires
            old(self).wf(),
            old(self).has_tid(tid),
        ensures
            final(self).wf(),
            final(self).has_tid(tid),
            DeliveryEngine::others_unchanged(*old(self), *final(self), tid),
            r is Err <==> ((old(self).thread_of(tid).altstack.in_use && new is Some) || (!old(
                self,
            ).thread_of(tid).altstack.in_use && new is Some && !new->Some_0.disabled()
                && new->Some_0.size < crate::altstack::MINSIGSTKSZ)),
            r == Result::<StackConfig, SignalError>::Err(SignalError::Busy) <==> (old(
                self,
            ).thread_of(tid).altstack.in_use && new is Some),
            r == Result::<StackConfig, SignalError>::Err(SignalError::InvalidArgument) <==> (!old(
                self,
            ).thread_of(tid).altstack.in_use && new is Some && !new->Some_0.disabled()
                && new->Some_0.size < crate::altstack::MINSIGSTKSZ),
            r is Ok ==> r->Ok_0 == old(self).thread_of(tid).altstack.reported(),
            r is Err ==> final(self).thread_of(tid).altstack == old(self).thread_of(tid).altstack,
            (r is Ok && new is Some) ==> final(self).thread_of(tid).altstack == (AltStackState {
                config: new->Some_0,
                in_use: old(self).thread_of(tid).altstack.in_use,
            }),
            (r is Ok && new is None) ==> final(self).thread_of(tid).altstack == old(self).thread_of(
                tid,
            ).altstack,
            final(self).thread_of(tid).tid == tid,
            final(self).thread_of(tid).blocked == old(self).thread_of(tid).blocked,
            final(self).thread_of(tid).pending.buckets@ == old(self).thread_of(tid).pending.buckets@,
            final(self).thread_of(tid).frames@ == old(self).thread_of(tid).frames@,
            final(self).thread_of(tid).blocking == old(self).thread_of(tid).blocking,
            final(self).process == old(self).process,
    {
        let i = self.find_thread(tid);
        let mut th = self.threads.remove(i);
        let r = th.altstack.configure(new);
        self.threads.insert(i, th);
        proof {
            crate::pending::lemma_remove_insert(
                old(self).threads@,
                i as int,
                self.threads@[i as int],
            );
            assert(self.threads@ =~= old(self).threads@.update(i as int, self.threads@[i as int]));
            lemma_engine_update(*old(self), *self, tid, i as int);
        }
        r
    }

    /// Handler return for the thread with id `tid`: restore the
    /// pre-handler blocked mask and leave the alternate stack if the
    /// handler ran on it. The control path re-runs the checkpoint next,
    /// as it does before any return to user code.
    pub fn handler_return(&mut self, tid: i32)
        requires
            old(self).wf(),
            old(self).has_tid(tid),
            old(self).thread_of(tid).frames@.len() > 0,
        ensures
            final(self).wf(),
            final(self).has_tid(tid),
            DeliveryEngine::others_unchanged(*old(self), *final(self), tid),
            final(self).thread_of(tid).frames@ == old(self).thread_of(tid).frames@.drop_last(),
            forall|s: int|
                #[trigger] final(self).thread_of(tid).blocked.has(s) <==> (old(self).thread_of(
                    tid,
                ).frames@.last().saved_mask.has(s) && !sigset::untouchable(s)),
            ({
                let fr = old(self).thread_of(tid).frames@.last();
                if fr.stack == StackSelection::Alternate {
                    &&& !final(self).thread_of(tid).altstack.in_use
                    &&& final(self).thread_of(tid).altstack.config == (match fr.altstack_restore {
                        Option::Some(c) => c,
                        Option::None => old(self).thread_of(tid).altstack.config,
                    })
                } else {
                    final(self).thread_of(tid).altstack == old(self).thread_of(tid).altstack
                }
            }),
            final(self).thread_of(tid).tid == tid,
            final(self).thread_of(tid).pending.buckets@ == old(self).thread_of(tid).pending.buckets@,
            final(self).thread_of(tid).blocking == old(self).thread_of(tid).blocking,
            final(self).process == old(self).process,
    {
        let i = self.find_thread(tid);
        let mut th = self.threads.remove(i);
        let fr = match th.frames.pop() {
            Option::Some(fr) => fr,
            Option::None => {
                proof {
                    assert(false);
                }
                HandlerFrame {
                    signal: 0,
                    saved_mask: SignalSet { bits: 0 },
                    stack: StackSelection::Normal,
                    altstack_restore: Option::None,
                }
            },
        };
        th.blocked = fr.saved_mask.scrub();
        match fr.stack {
            StackSelection::Alternate => {
                th.altstack.leave_handler(fr.altstack_restore);
            },
            StackSelection::Normal => {},
        }
        self.threads.insert(i, th);
        proof {
            crate::pending::lemma_remove_insert(
                old(self).threads@,
                i as int,
                self.threads@[i as int],
            );
            assert(self.threads@ =~= old(self).threads@.update(i as int, self.threads@[i as int]));
            lemma_engine_update(*old(self), *self, tid, i as int);
        }
    }

    /// Enter a blocking syscall emulation on the thread with id `tid`.
    /// While the region is open, checkpoints apply the interruption
    /// rules instead of delivering into a waiting thread.
    pub fn begin_blocking_region(&mut self, tid: i32, interruptible: bool)
        requires
            old(self).wf(),
            old(self).has_tid(tid),
            old(self).thread_of(tid).blocking is None,
        ensures
            final(self).wf(),
            final(self).has_tid(tid),
            DeliveryEngine::others_unchanged(*old(self), *final(self), tid),
            final(self).thread_of(tid).blocking == Option::Some(
                BlockingState { interruptible, interrupted: Option::None },
            ),
            final(self).thread_of(tid).tid == tid,
            final(self).thread_of(tid).blocked == old(self).thread_of(tid).blocked,
            final(self).thread_of(tid).pending.buckets@ == old(self).thread_of(tid).pending.buckets@,
            final(self).thread_of(tid).altstack == old(self).thread_of(tid).altstack,
            final(self).thread_of(tid).frames@ == old(self).thread_of(tid).frames@,
            final(self).process == old(self).process,
    {
        let i = self.find_thread(tid);
        let mut th = self.threads.remove(i);
        th.blocking = Option::Some(BlockingState { interruptible, interrupted: Option::None });
        self.threads.insert(i, th);
        proof {
            crate::pending::lemma_remove_insert(
                old(self).threads@,
                i as int,
                self.threads@[i as int],
            );
            assert(self.threads@ =~= old(self).threads@.update(i as int, self.threads@[i as int]));
            lemma_engine_update(*old(self), *self, tid, i as int);
        }
    }

    /// Close the blocking region of the thread with id `tid` and learn
    /// how it ended: completed, or interrupted by a handler — and then
    /// whether the action asked for the syscall to be restarted.
    pub fn end_blocking_region(&mut self, tid: i32) -> (r: RegionOutcome)
        requires
            old(self).wf(),
            old(self).has_tid(tid),
            old(self).thread_of(tid).blocking is Some,
        ensures
            final(self).wf(),
            final(self).has_tid(tid),
            DeliveryEngine::others_unchanged(*old(self), *final(self), tid),
            final(self).thread_of(tid).blocking is None,
            r == (match old(self).thread_of(tid).blocking->Some_0.interrupted {
                Option::None => RegionOutcome::Completed,
                Option::Some(re) => RegionOutcome::Interrupted { restart: re },
            }),
            final(self).thread_of(tid).tid == tid,
            final(self).thread_of(tid).blocked == old(self).thread_of(tid).blocked,
            final(self).thread_of(tid).pending.buckets@ == old(self).thread_of(tid).pending.buckets@,
            final(self).thread_of(tid).altstack == old(self).thread_of(tid).altstack,
            final(self).thread_of(tid).frames@ == old(self).thread_of(tid).frames@,
            final(self).process == old(self).process,
    {
        let i = self.find_thread(tid);
        let mut th = self.threads.remove(i);
        let r = match th.blocking {
            Option::Some(bs) => match bs.interrupted {
                Option::None => RegionOutcome::Completed,
                Option::Some(re) => RegionOutcome::Interrupted { restart: re },
            },
            Option::None => {
                proof {
                    assert(false);
                }
                RegionOutcome::Completed
            },
        };
        th.blocking = Option::None;
        self.threads.insert(i, th);
        proof {
            crate::pending::lemma_remove_insert(
                old(self).threads@,
                i as int,
                self.threads@[i as int],
            );
            assert(self.threads@ =~= old(self).threads@.update(i as int, self.threads@[i as int]));
            lemma_engine_update(*old(self), *self, tid, i as int);
        }
        r
    }

    /// Register an action for `signal`, process-wide, returning the
    /// previous one. Rejected for an untouchable signal unless the
    /// action is the default. Moving a signal to ignore or back to
    /// default discards anything queued for it, in the process set and
    /// in every thread's set.
    pub fn set_disposition(&mut self, signal: i32, act: sigaction) -> (r: Result<
        sigaction,
        SignalError,
    >)
        requires
            old(self).wf(),
            sigset::valid_signal(signal as int),
        ensures
            final(self).wf(),
            r is Err <==> (sigset::untouchable(signal as int) && act.disposition()
                != Disposition::Default),
            r is Err ==> r->Err_0 == SignalError::Rejected && final(self).threads@ == old(
                self,
            ).threads@ && final(self).process.table.actions@ == old(self).process.table.actions@
                && final(self).process.pending.buckets@ == old(self).process.pending.buckets@,
            r is Ok ==> r->Ok_0 == old(self).process.table.action(signal as int),
            r is Ok ==> final(self).process.table.action(signal as int) == act && (forall|t: int|
                t != signal as int ==> #[trigger] final(self).process.table.action(t) == old(
                    self,
                ).process.table.action(t)),
            final(self).process.forced == old(self).process.forced,
            final(self).process.pid == old(self).process.pid,
            final(self).threads@.len() == old(self).threads@.len(),
            (r is Ok && act.disposition() == Disposition::Handler) ==> final(self).threads@ == old(
                self,
            ).threads@ && final(self).process.pending.buckets@ == old(
                self,
            ).process.pending.buckets@,
            (r is Ok && act.disposition() != Disposition::Handler) ==> {
                &&& final(self).process.pending.bucket(signal as int).len() == 0
                &&& forall|t: int|
                    t != signal as int ==> #[trigger] final(self).process.pending.bucket(t) == old(
                        self,
                    ).process.pending.bucket(t)
                &&& forall|j: int|
                    0 <= j < old(self).threads@.len() ==> same_thread_but_pending(
                        old(self).threads@[j],
                        #[trigger] final(self).threads@[j],
                    )
                &&& forall|j: int, t: int|
                    0 <= j < old(self).threads@.len() && t != signal as int ==> (
                    #[trigger] final(self).threads@[j].pending.bucket(t)) == old(
                        self,
                    ).threads@[j].pending.bucket(t)
                &&& forall|j: int|
                    0 <= j < old(self).threads@.len() ==> (#[trigger] final(self).threads@[j].pending.bucket(signal as int)).len() == 0
            },
    {
        let res = self.process.table.set(signal, act);
        let prev = match res {
            Result::Err(e) => {
                return Result::Err(e);
            },
            Result::Ok(prev) => prev,
        };
        match act.disposition_of() {
            Disposition::Handler => {},
            _ => {
                self.process.pending.discard(signal);
                let ghost pl = self.process;
                let n = self.threads.len();
                let mut i: usize = 0;
                while i < n
                    invariant
                        old(self).wf(),
                        n == self.threads@.len(),
                        n == old(self).threads@.len(),
                        i <= n,
                        self.process == pl,
                        self.process.wf(),
                        forall|j: int|
                            0 <= j < n ==> (#[trigger] self.threads@[j]).wf()
                                && self.threads@[j].tid == old(self).threads@[j].tid,
                        forall|j: int|
                            i as int <= j < n ==> #[trigger] self.threads@[j] == old(
                                self,
                            ).threads@[j],
                        forall|j: int|
                            0 <= j < i as int ==> same_thread_but_pending(
                                old(self).threads@[j],
                                #[trigger] self.threads@[j],
                            ),
                        forall|j: int, t: int|
                            0 <= j < i as int && t != signal as int ==> (
                            #[trigger] self.threads@[j].pending.bucket(t)) == old(
                                self,
                            ).threads@[j].pending.bucket(t),
                        forall|j: int|
                            0 <= j < i as int ==> (#[trigger] self.threads@[j].pending.bucket(
                                signal as int,
                            )).len() == 0,
                    decreases n - i,
                {
                    let ghost pre = self.threads@;
                    let mut th = self.threads.remove(i);
                    th.pending.discard(signal);
                    self.threads.insert(i, th);
                    proof {
                        crate::pending::lemma_remove_insert(
                            pre,
                            i as int,
                            self.threads@[i as int],
                        );
                        assert(self.threads@ =~= pre.update(i as int, self.threads@[i as int]));
                    }
                    i = i + 1;
                }
            },
        }
        Result::Ok(prev)
    }
}

/// Knowing a concrete index whose thread carries `tid` pins down
/// `tidx(tid)`.
proof fn lemma_tidx_is(e: DeliveryEngine, tid: i32, i: int)
    requires
        e.wf(),
        0 <= i < e.threads@.len(),
        e.threads@[i].tid == tid,
    ensures
        e.has_tid(tid),
        e.tidx(tid) == i,
{
    assert(e.has_tid(tid));
    let j = e.tidx(tid);
    assert(0 <= j < e.threads@.len() && e.threads@[j].tid == tid);
    if j < i {
        assert(e.threads@[j].tid != e.threads@[i].tid);
    } else if i < j {
        assert(e.threads@[i].tid != e.threads@[j].tid);
    }
}

/// After one thread's state is replaced — tid kept — the engine is still
/// sound and every other thread is untouched.
proof fn lemma_engine_update(old_e: DeliveryEngine, new_e: DeliveryEngine, tid: i32, i: int)
    requires
        old_e.wf(),
        0 <= i < old_e.threads@.len(),
        old_e.threads@[i].tid == tid,
        i == old_e.tidx(tid),
        new_e.threads@ == old_e.threads@.update(i, new_e.threads@[i]),
        new_e.threads@[i].wf(),
        new_e.threads@[i].tid == tid,
        new_e.process.wf(),
    ensures
        new_e.wf(),
        new_e.has_tid(tid),
        new_e.tidx(tid) == i,
        DeliveryEngine::others_unchanged(old_e, new_e, tid),
        new_e.thread_of(tid) == new_e.threads@[i],
        old_e.thread_of(tid) == old_e.threads@[i],
{
    assert(new_e.threads@.len() == old_e.threads@.len());
    assert forall|j: int|
        0 <= j < new_e.threads@.len() implies (#[trigger] new_e.threads@[j]).wf() by {
        if j != i {
            assert(new_e.threads@[j] == old_e.threads@[j]);
        }
    }
    assert forall|a: int, b: int|
        0 <= a < b < new_e.threads@.len() implies (#[trigger] new_e.threads@[a]).tid != (
    #[trigger] new_e.threads@[b]).tid by {
        if a != i {
            assert(new_e.threads@[a] == old_e.threads@[a]);
        }
        if b != i {
            assert(new_e.threads@[b] == old_e.threads@[b]);
        }
    }
    lemma_tidx_is(new_e, tid, i);
}

/// Two signals can both be the selection only if they are the same.
proof fn lemma_selected_unique(th: ThreadSignalState, pr: ProcessSignalState, a: int, b: int)
    requires
        selected(th, pr, a),
        selected(th, pr, b),
    ensures
        a == b,
{
    if a < b {
        assert(!(eligible(th, pr, a) && !ignored_at(pr, a)));
    } else if b < a {
        assert(!(eligible(th, pr, b) && !ignored_at(pr, b)));
    }
}

/// One checkpoint of thread `th` in process `pr`: decide whether a
/// signal must be delivered before the thread returns to user code, and
/// carry out the transition its disposition demands.
pub fn checkpoint_core(th: &mut ThreadSignalState, pr: &mut ProcessSignalState) -> (r:
    CheckpointOutcome)
    requires
        old(th).wf(),
        old(pr).wf(),
    ensures
        final(th).wf(),
        final(pr).wf(),
        final(th).tid == old(th).tid,
        checkpoint_rel(*old(th), *old(pr), *final(th), *final(pr), r),
{
    match pr.forced {
        Option::Some(k) => {
            pr.forced = Option::None;
            th.blocking = Option::None;
            match sigset::default_action(k) {
                DefaultAction::Stop => {
                    return CheckpointOutcome::Stopped { signal: k, info: Option::None };
                },
                DefaultAction::CoreDump => {
                    return CheckpointOutcome::Terminated {
                        signal: k,
                        info: Option::None,
                        core_dump: true,
                    };
                },
                _ => {
                    return CheckpointOutcome::Terminated {
                        signal: k,
                        info: Option::None,
                        core_dump: false,
                    };
                },
            }
        },
        Option::None => {},
    }
    let sel = select_signal(th, pr);
    let bound: i32 = match sel {
        Option::Some(s) => s,
        Option::None => 65,
    };
    drain_ignored(th, pr, bound);
    let s = match sel {
        Option::Some(s) => s,
        Option::None => {
            return CheckpointOutcome::Continue;
        },
    };
    let a = pr.table.get(s);
    match a.disposition_of() {
        Disposition::Ignore => {
            proof {
                assert(false);
            }
            CheckpointOutcome::Continue
        },
        Disposition::Handler => {
            match th.blocking {
                Option::Some(bs) => {
                    if !bs.interruptible {
                        proof {
                            assert forall|s0: int|
                                selected(*old(th), *old(pr), s0) implies delivery_rel(
                                *old(th),
                                *old(pr),
                                *th,
                                *pr,
                                CheckpointOutcome::Continue,
                                s0,
                            ) by {
                                lemma_selected_unique(*old(th), *old(pr), s0, s as int);
                            }
                        }
                        return CheckpointOutcome::Continue;
                    }
                },
                Option::None => {},
            }
            let info = if th.pending.is_pending(s) {
                th.pending.pop_first(s)
            } else {
                pr.pending.pop_first(s)
            };
            let nodefer = abi::flag_set(a.sa_flags, abi::SA_NODEFER);
            let action_mask = SignalSet::from_bits(a.sa_mask);
            let base = th.blocked.union(action_mask);
            let widened = if nodefer {
                base
            } else {
                base.insert(s)
            };
            let newmask = widened.scrub();
            let saved_mask = th.blocked;
            th.blocked = newmask;
            let wants = abi::flag_set(a.sa_flags, abi::SA_ONSTACK);
            let entered = th.altstack.enter_handler(wants);
            let stacksel = entered.0;
            th.frames.push(
                HandlerFrame { signal: s, saved_mask, stack: stacksel, altstack_restore: entered.1 },
            );
            if abi::flag_set(a.sa_flags, abi::SA_RESETHAND) {
                let res = pr.table.set(s, sigaction::default_action());
                proof {
                    assert(res is Ok);
                }
            }
            match th.blocking {
                Option::Some(bs) => {
                    th.blocking = Option::Some(
                        BlockingState {
                            interruptible: bs.interruptible,
                            interrupted: Option::Some(abi::flag_set(a.sa_flags, abi::SA_RESTART)),
                        },
                    );
                },
                Option::None => {},
            }
            let r = CheckpointOutcome::EnterHandler { signal: s, info, action: a, stack: stacksel };
            proof {
                let s0 = s as int;
                let oth = *old(th);
                let opr = *old(pr);
                assert(handler_mask_ok(oth.blocked, a, s0, th.blocked));
                assert(handler_rel(oth, opr, *th, *pr, r, s0));
                assert forall|t: int|
                    selected(oth, opr, t) implies delivery_rel(oth, opr, *th, *pr, r, t) by {
                    lemma_selected_unique(oth, opr, t, s0);
                }
            }
            r
        },
        Disposition::Default => {
            let info = if th.pending.is_pending(s) {
                th.pending.pop_first(s)
            } else {
                pr.pending.pop_first(s)
            };
            th.blocking = Option::None;
            let r = match sigset::default_action(s) {
                DefaultAction::Stop => CheckpointOutcome::Stopped {
                    signal: s,
                    info: Option::Some(info),
                },
                DefaultAction::CoreDump => CheckpointOutcome::Terminated {
                    signal: s,
                    info: Option::Some(info),
                    core_dump: true,
                },
                DefaultAction::Terminate => CheckpointOutcome::Terminated {
                    signal: s,
                    info: Option::Some(info),
                    core_dump: false,
                },
                DefaultAction::Ignore => {
                    proof {
                        assert(false);
                    }
                    CheckpointOutcome::Continue
                },
                DefaultAction::Continue => {
                    proof {
                        assert(false);
                    }
                    CheckpointOutcome::Continue
                },
            };
            proof {
                assert forall|s0: int|
                    selected(*old(th), *old(pr), s0) implies delivery_rel(
                    *old(th),
                    *old(pr),
                    *th,
                    *pr,
                    r,
                    s0,
                ) by {
                    lemma_selected_unique(*old(th), *old(pr), s0, s as int);
                }
            }
            r
        },
    }
}

} // verus!
