//! Laws of the delivery engine, stated and proved over the same spec
//! functions the executable contracts use.

use vstd::prelude::*;

use crate::abi;
use crate::abi::Disposition;
use crate::altstack::AltStackState;
use crate::altstack::SS_DISABLE;
use crate::altstack::StackConfig;
use crate::altstack::StackSelection;
use crate::engine::BlockingState;
use crate::engine::CheckpointOutcome;
use crate::engine::DeliveryEngine;
use crate::engine::ProcessSignalState;
use crate::engine::ThreadSignalState;
use crate::engine::checkpoint_rel;
use crate::engine::delivered_info;
use crate::engine::eligible;
use crate::engine::ignored_at;
use crate::engine::selected;
use crate::pending::PendingSignals;
use crate::pending::RT_QUEUE_CAP;
use crate::pending::RaiseOutcome;
use crate::engine::raise_updates_pending;
use crate::sigset;
use crate::sigset::DefaultAction;

verus! {

/// In every sound engine state the untouchable signals sit at their
/// default disposition and stand in no thread's blocked mask: no request
/// can ever ignore, handle or block them.
pub proof fn lemma_untouchable_protected(e: DeliveryEngine, s: int)
    requires
        e.wf(),
        sigset::untouchable(s),
    ensures
        e.process.table.action(s).disposition() == Disposition::Default,
        forall|i: int| 0 <= i < e.threads@.len() ==> !(#[trigger] e.threads@[i]).blocked.has(s),
{
}

/// Raising a standard signal twice before it is delivered queues exactly
/// one record: the second raise coalesces, and one delivery drains the
/// slot.
pub proof fn lemma_standard_raise_coalesces(
    p0: PendingSignals,
    p1: PendingSignals,
    p2: PendingSignals,
    info1: crate::sinfo::SigInfo,
    info2: crate::sinfo::SigInfo,
    r1: RaiseOutcome,
    r2: RaiseOutcome,
)
    requires
        info1.signal == info2.signal,
        !sigset::untouchable(info1.signal as int),
        !sigset::is_realtime(info1.signal as int),
        sigset::valid_signal(info1.signal as int),
        p0.bucket(info1.signal as int).len() == 0,
        raise_updates_pending(p0, p1, info1, r1),
        raise_updates_pending(p1, p2, info2, r2),
    ensures
        r1 == RaiseOutcome::Queued,
        r2 == RaiseOutcome::Coalesced,
        p2.bucket(info1.signal as int) =~= seq![info1],
{
    let s = info1.signal as int;
    assert(p1.bucket(s) =~= seq![info1]);
    assert(p2.buckets@ == p1.buckets@);
}

/// Raising a real-time signal twice queues two records, and they come
/// out in the order they went in.
pub proof fn lemma_realtime_raises_queue_fifo(
    p0: PendingSignals,
    p1: PendingSignals,
    p2: PendingSignals,
    info1: crate::sinfo::SigInfo,
    info2: crate::sinfo::SigInfo,
    r1: RaiseOutcome,
    r2: RaiseOutcome,
)
    requires
        info1.signal == info2.signal,
        sigset::is_realtime(info1.signal as int),
        sigset::valid_signal(info1.signal as int),
        p0.bucket(info1.signal as int).len() == 0,
        raise_updates_pending(p0, p1, info1, r1),
        raise_updates_pending(p1, p2, info2, r2),
    ensures
        r1 == RaiseOutcome::Queued,
        r2 == RaiseOutcome::Queued,
        p2.bucket(info1.signal as int) =~= seq![info1, info2],
        p2.bucket(info1.signal as int)[0] == info1,
        p2.bucket(info1.signal as int).remove(0) =~= seq![info2],
{
    let s = info1.signal as int;
    assert(!sigset::untouchable(s));
    assert(p1.bucket(s) =~= seq![info1]);
    assert(p1.bucket(s).len() == 1 < RT_QUEUE_CAP);
    assert(p2.bucket(s) =~= seq![info1, info2]);
}

/// A helper: when only `s` is pending anywhere and nothing blocks it,
/// `s` is the checkpoint's selection, provided its disposition does not
/// discard it.
pub proof fn lemma_lone_signal_selected(th: ThreadSignalState, pr: ProcessSignalState, s: int)
    requires
        sigset::valid_signal(s),
        !th.blocked.has(s),
        th.pending.pending(s) || pr.pending.pending(s),
        !ignored_at(pr, s),
        forall|t: int| 1 <= t < s ==> (#[trigger] th.pending.bucket(t)).len() == 0,
        forall|t: int| 1 <= t < s ==> (#[trigger] pr.pending.bucket(t)).len() == 0,
    ensures
        selected(th, pr, s),
{
    assert forall|u: int| 1 <= u < s implies !(eligible(th, pr, u) && !ignored_at(pr, u)) by {
        assert(th.pending.bucket(u).len() == 0);
        assert(pr.pending.bucket(u).len() == 0);
        assert(!th.pending.pending(u));
        assert(!pr.pending.pending(u));
    }
}

/// Sending the same blocked, handler-dispositioned signal to a thread
/// and to its process fills two independent queue slots: after the mask
/// is opened, exactly two checkpoints observe a handler entry — the
/// thread-directed record first, then the process-directed one — and a
/// third checkpoint finds nothing to deliver.
///
/// The states `tha`/`pra` and `thb`/`prb` are the thread's state at the
/// second and third checkpoint: between checkpoints the handler returns,
/// which restores the blocked mask and touches no pending queue.
#[verifier::rlimit(30)]
pub proof fn lemma_send_to_thread_and_process_delivers_twice(
    th0: ThreadSignalState,
    pr0: ProcessSignalState,
    th1: ThreadSignalState,
    pr1: ProcessSignalState,
    r1: CheckpointOutcome,
    tha: ThreadSignalState,
    pra: ProcessSignalState,
    th2: ThreadSignalState,
    pr2: ProcessSignalState,
    r2: CheckpointOutcome,
    thb: ThreadSignalState,
    prb: ProcessSignalState,
    th3: ThreadSignalState,
    pr3: ProcessSignalState,
    r3: CheckpointOutcome,
    s: int,
)
    requires
        th0.wf(),
        pr0.wf(),
        sigset::valid_signal(s),
        pr0.forced is None,
        pr0.table.action(s).disposition() == Disposition::Handler,
        !abi::has_flag(pr0.table.action(s).sa_flags, abi::SA_RESETHAND),
        th0.pending.bucket(s).len() == 1,
        pr0.pending.bucket(s).len() == 1,
        forall|t: int| t != s ==> (#[trigger] th0.pending.bucket(t)).len() == 0,
        forall|t: int| t != s ==> (#[trigger] pr0.pending.bucket(t)).len() == 0,
        !th0.blocked.has(s),
        th0.blocking is None,
        checkpoint_rel(th0, pr0, th1, pr1, r1),
        // the handler returned: queues as the first checkpoint left them,
        // the signal unblocked again, no blocking region, table untouched
        tha.wf(),
        pra.wf(),
        tha.pending.buckets@ == th1.pending.buckets@,
        pra.pending.buckets@ == pr1.pending.buckets@,
        pra.table.actions@ == pr1.table.actions@,
        pra.forced is None,
        !tha.blocked.has(s),
        tha.blocking is None,
        checkpoint_rel(tha, pra, th2, pr2, r2),
        // and again before the third checkpoint
        thb.wf(),
        prb.wf(),
        thb.pending.buckets@ == th2.pending.buckets@,
        prb.pending.buckets@ == pr2.pending.buckets@,
        prb.forced is None,
        checkpoint_rel(thb, prb, th3, pr3, r3),
    ensures
        r1 matches CheckpointOutcome::EnterHandler { signal, info, .. } && signal == s && info
            == th0.pending.bucket(s)[0],
        r2 matches CheckpointOutcome::EnterHandler { signal, info, .. } && signal == s && info
            == pr0.pending.bucket(s)[0],
        r3 == CheckpointOutcome::Continue,
{
    assert(!ignored_at(pr0, s));
    assert(th0.pending.pending(s));
    lemma_lone_signal_selected(th0, pr0, s);
    assert(delivered_info(th0, pr0, s) == th0.pending.bucket(s)[0]);
    assert(r1 matches CheckpointOutcome::EnterHandler { signal, info, .. } && signal == s && info
        == th0.pending.bucket(s)[0]);
    // after the first delivery the thread slot is empty, the process slot full
    assert(th1.pending.bucket(s) =~= th0.pending.bucket(s).remove(0));
    assert(th1.pending.bucket(s).len() == 0);
    assert(pr1.pending.bucket(s).len() == 1);
    assert forall|t: int| t != s implies (#[trigger] tha.pending.bucket(t)).len() == 0 by {
        assert(th1.pending.bucket(t) == th0.pending.bucket(t));
        assert(tha.pending.bucket(t) == th1.pending.bucket(t));
    }
    assert forall|t: int| t != s implies (#[trigger] pra.pending.bucket(t)).len() == 0 by {
        assert(pr1.pending.bucket(t) == pr0.pending.bucket(t));
        assert(pra.pending.bucket(t) == pr1.pending.bucket(t));
    }
    assert(tha.pending.bucket(s) == th1.pending.bucket(s));
    assert(pra.pending.bucket(s) == pr1.pending.bucket(s));
    assert(pra.table.action(s) == pr1.table.action(s));
    assert(pr1.table.actions@ == pr0.table.actions@);
    assert(!ignored_at(pra, s));
    assert(pra.pending.pending(s));
    assert forall|t: int| 1 <= t < s implies (#[trigger] tha.pending.bucket(t)).len() == 0 by {
        assert(th1.pending.bucket(t) == th0.pending.bucket(t));
    }
    assert forall|t: int| 1 <= t < s implies (#[trigger] pra.pending.bucket(t)).len() == 0 by {
        assert(pr1.pending.bucket(t) == pr0.pending.bucket(t));
    }
    lemma_lone_signal_selected(tha, pra, s);
    assert(delivered_info(tha, pra, s) == pr0.pending.bucket(s)[0]);
    assert(r2 matches CheckpointOutcome::EnterHandler { signal, info, .. } && signal == s && info
        == pr0.pending.bucket(s)[0]);
    // after the second delivery nothing is pending at all
    assert(th2.pending.bucket(s) == tha.pending.bucket(s));
    assert(pr2.pending.bucket(s) =~= pra.pending.bucket(s).remove(0));
    assert forall|t: int|
        !(eligible(thb, prb, t) && !ignored_at(prb, t)) by {
        if sigset::valid_signal(t) {
            if t != s {
                assert(th2.pending.bucket(t) == tha.pending.bucket(t));
                assert(pr2.pending.bucket(t) == pra.pending.bucket(t));
            }
            assert(thb.pending.bucket(t).len() == 0);
            assert(prb.pending.bucket(t).len() == 0);
        }
    }
    assert(r3 == CheckpointOutcome::Continue);
}

/// A signal whose disposition discards it never interrupts a blocking
/// region: when everything eligible is ignored, the checkpoint reports
/// nothing and the region stays exactly as it was.
pub proof fn lemma_ignored_never_interrupts(
    th0: ThreadSignalState,
    pr0: ProcessSignalState,
    th1: ThreadSignalState,
    pr1: ProcessSignalState,
    r: CheckpointOutcome,
)
    requires
        th0.wf(),
        pr0.wf(),
        pr0.forced is None,
        th0.blocking == Option::Some(
            BlockingState { interruptible: true, interrupted: Option::None },
        ),
        forall|t: int| eligible(th0, pr0, t) ==> ignored_at(pr0, t),
        checkpoint_rel(th0, pr0, th1, pr1, r),
    ensures
        r == CheckpointOutcome::Continue,
        th1.blocking == th0.blocking,
{
}

/// A handler-dispositioned signal always interrupts an interruptible
/// blocking region, and records the action's restart request for
/// the region's end.
pub proof fn lemma_handler_interrupts(
    th0: ThreadSignalState,
    pr0: ProcessSignalState,
    th1: ThreadSignalState,
    pr1: ProcessSignalState,
    r: CheckpointOutcome,
    s: int,
)
    requires
        th0.wf(),
        pr0.wf(),
        pr0.forced is None,
        th0.blocking == Option::Some(
            BlockingState { interruptible: true, interrupted: Option::None },
        ),
        selected(th0, pr0, s),
        pr0.table.action(s).disposition() == Disposition::Handler,
        checkpoint_rel(th0, pr0, th1, pr1, r),
    ensures
        r matches CheckpointOutcome::EnterHandler { signal, .. } && signal == s,
        th1.blocking == Option::Some(
            BlockingState {
                interruptible: true,
                interrupted: Option::Some(
                    abi::has_flag(pr0.table.action(s).sa_flags, abi::SA_RESTART),
                ),
            },
        ),
{
}

/// An action without the on-stack flag never runs its handler on the
/// alternate stack, however the stack is configured.
pub proof fn lemma_no_onstack_means_normal_stack(
    th0: ThreadSignalState,
    pr0: ProcessSignalState,
    th1: ThreadSignalState,
    pr1: ProcessSignalState,
    r: CheckpointOutcome,
    s: int,
)
    requires
        th0.wf(),
        pr0.wf(),
        pr0.forced is None,
        selected(th0, pr0, s),
        pr0.table.action(s).disposition() == Disposition::Handler,
        !abi::has_flag(pr0.table.action(s).sa_flags, abi::SA_ONSTACK),
        !(th0.blocking matches Option::Some(bs) && !bs.interruptible),
        checkpoint_rel(th0, pr0, th1, pr1, r),
    ensures
        r matches CheckpointOutcome::EnterHandler { stack, .. } && stack
            == StackSelection::Normal,
{
}

/// Autodisarm: while the handler runs, a query reports the stack as
/// disabled — null pointer, the disable flag, zero size — and the state
/// the return restores reports the original configuration unchanged.
pub proof fn lemma_autodisarm_reports(a0: AltStackState)
    requires
        !a0.in_use,
        !a0.config.disabled(),
        a0.config.autodisarm(),
    ensures
        (AltStackState {
            config: StackConfig { sp: 0, flags: SS_DISABLE, size: 0 },
            in_use: false,
        }).reported() == (StackConfig { sp: 0, flags: SS_DISABLE, size: 0 }),
        (AltStackState { config: a0.config, in_use: false }).reported() == a0.config,
{
    assert(SS_DISABLE & SS_DISABLE != 0) by (bit_vector);
}

/// A default disposition whose action terminates the process aborts any
/// blocking region at once: the checkpoint reports the termination with
/// the dequeued metadata, and no handler is entered.
pub proof fn lemma_default_termination_aborts_blocking(
    th0: ThreadSignalState,
    pr0: ProcessSignalState,
    th1: ThreadSignalState,
    pr1: ProcessSignalState,
    r: CheckpointOutcome,
    s: int,
)
    requires
        th0.wf(),
        pr0.wf(),
        pr0.forced is None,
        selected(th0, pr0, s),
        pr0.table.action(s).disposition() == Disposition::Default,
        sigset::spec_default_action(s) == DefaultAction::Terminate,
        checkpoint_rel(th0, pr0, th1, pr1, r),
    ensures
        r == (CheckpointOutcome::Terminated {
            signal: s as i32,
            info: Option::Some(delivered_info(th0, pr0, s)),
            core_dump: false,
        }),
        th1.blocking is None,
        th1.frames@ == th0.frames@,
{
}

} // verus!
