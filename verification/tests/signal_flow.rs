//! End-to-end behaviour of the delivery engine.

use sigsim::abi::SA_ONSTACK;
use sigsim::abi::SA_RESETHAND;
use sigsim::abi::SA_RESTART;
use sigsim::abi::SIG_IGN;
use sigsim::abi::sigaction;
use sigsim::altstack::SS_AUTODISARM;
use sigsim::altstack::SS_DISABLE;
use sigsim::altstack::SS_ONSTACK;
use sigsim::altstack::StackConfig;
use sigsim::altstack::StackSelection;
use sigsim::engine::CheckpointOutcome;
use sigsim::engine::DeliveryEngine;
use sigsim::engine::MaskHow;
use sigsim::engine::RegionOutcome;
use sigsim::errors::SignalError;
use sigsim::pending::RaiseOutcome;
use sigsim::sigset::SIGKILL;
use sigsim::sigset::SIGRTMIN;
use sigsim::sigset::SIGSTOP;
use sigsim::sigset::SIGURG;
use sigsim::sigset::SIGUSR1;
use sigsim::sigset::SignalSet;
use sigsim::sinfo::SigInfo;

const PID: i32 = 100;
const TID: i32 = 101;

fn handler_action(flags: u64) -> sigaction {
    sigaction { sa_handler: 0x1000, sa_flags: flags, sa_restorer: 0, sa_mask: 0 }
}

fn ignore_action() -> sigaction {
    sigaction { sa_handler: SIG_IGN, sa_flags: 0, sa_restorer: 0, sa_mask: 0 }
}

#[test]
fn untouchable_dispositions_rejected() {
    let mut e = DeliveryEngine::new(PID, TID);
    // neither a handler nor an ignore can ever be registered for them
    assert_eq!(
        e.set_disposition(SIGKILL, handler_action(0)),
        Err(SignalError::Rejected)
    );
    assert_eq!(e.set_disposition(SIGKILL, ignore_action()), Err(SignalError::Rejected));
    assert_eq!(e.set_disposition(SIGSTOP, handler_action(0)), Err(SignalError::Rejected));
    assert_eq!(e.set_disposition(SIGSTOP, ignore_action()), Err(SignalError::Rejected));
    // the default action may be re-registered
    assert!(e.set_disposition(SIGKILL, sigaction::default_action()).is_ok());
}

#[test]
fn untouchables_never_blocked() {
    let mut e = DeliveryEngine::new(PID, TID);
    let mut set = SignalSet::empty();
    set = set.insert(SIGKILL);
    set = set.insert(SIGSTOP);
    set = set.insert(SIGUSR1);
    e.set_mask(TID, MaskHow::Block, set);
    // read the resulting mask back: it holds SIGUSR1 but not the untouchables
    let mask = e.set_mask(TID, MaskHow::Block, SignalSet::empty());
    assert!(mask.contains(SIGUSR1));
    assert!(!mask.contains(SIGKILL));
    assert!(!mask.contains(SIGSTOP));
    // replacing the whole mask drops them too
    e.set_mask(TID, MaskHow::SetMask, set);
    let mask = e.set_mask(TID, MaskHow::Block, SignalSet::empty());
    assert!(mask.contains(SIGUSR1));
    assert!(!mask.contains(SIGKILL));
    assert!(!mask.contains(SIGSTOP));
}

#[test]
fn standard_signal_coalesces() {
    let mut e = DeliveryEngine::new(PID, TID);
    e.set_disposition(SIGUSR1, handler_action(0)).unwrap();
    let info = SigInfo::new_tkill(SIGUSR1, PID, 0);
    assert_eq!(e.raise_thread(TID, info), RaiseOutcome::Queued);
    assert_eq!(e.raise_thread(TID, info), RaiseOutcome::Coalesced);
    assert_eq!(e.raise_thread(TID, info), RaiseOutcome::Coalesced);
    // exactly one delivery comes out
    match e.checkpoint(TID) {
        CheckpointOutcome::EnterHandler { signal, .. } => assert_eq!(signal, SIGUSR1),
        other => panic!("expected a handler entry, got {:?}", other),
    }
    e.handler_return(TID);
    assert_eq!(e.checkpoint(TID), CheckpointOutcome::Continue);
}

#[test]
fn realtime_signal_queues_fifo() {
    let mut e = DeliveryEngine::new(PID, TID);
    let rt = SIGRTMIN;
    e.set_disposition(rt, handler_action(0)).unwrap();
    let first = SigInfo::new_rt(rt, PID, 0, 111);
    let second = SigInfo::new_rt(rt, PID, 0, 222);
    assert_eq!(e.raise_thread(TID, first), RaiseOutcome::Queued);
    assert_eq!(e.raise_thread(TID, second), RaiseOutcome::Queued);
    match e.checkpoint(TID) {
        CheckpointOutcome::EnterHandler { signal, info, .. } => {
            assert_eq!(signal, rt);
            assert_eq!(info, first);
        },
        other => panic!("expected a handler entry, got {:?}", other),
    }
    e.handler_return(TID);
    match e.checkpoint(TID) {
        CheckpointOutcome::EnterHandler { signal, info, .. } => {
            assert_eq!(signal, rt);
            assert_eq!(info, second);
        },
        other => panic!("expected a handler entry, got {:?}", other),
    }
    e.handler_return(TID);
    assert_eq!(e.checkpoint(TID), CheckpointOutcome::Continue);
}

#[test]
fn realtime_queue_reports_exhaustion() {
    let mut e = DeliveryEngine::new(PID, TID);
    let rt = SIGRTMIN;
    e.set_disposition(rt, handler_action(0)).unwrap();
    for k in 0..32 {
        assert_eq!(
            e.raise_thread(TID, SigInfo::new_rt(rt, PID, 0, k)),
            RaiseOutcome::Queued
        );
    }
    assert_eq!(
        e.raise_thread(TID, SigInfo::new_rt(rt, PID, 0, 99)),
        RaiseOutcome::QueueFull
    );
}

#[test]
fn send_to_thread_and_process_delivers_twice() {
    let mut e = DeliveryEngine::new(PID, TID);
    e.set_disposition(SIGUSR1, handler_action(0)).unwrap();

    // block the signal
    let to_block = SignalSet::empty().insert(SIGUSR1);
    e.set_mask(TID, MaskHow::Block, to_block);

    // one process-directed and one thread-directed instance
    assert_eq!(
        e.raise_process(SigInfo::new_user(SIGUSR1, PID, 0)),
        RaiseOutcome::Queued
    );
    assert_eq!(
        e.raise_thread(TID, SigInfo::new_tkill(SIGUSR1, PID, 0)),
        RaiseOutcome::Queued
    );

    // nothing is deliverable while blocked
    assert_eq!(e.checkpoint(TID), CheckpointOutcome::Continue);

    // unblock: the two slots deliver once each, thread-directed first
    e.set_mask(TID, MaskHow::Unblock, to_block);
    match e.checkpoint(TID) {
        CheckpointOutcome::EnterHandler { signal, info, .. } => {
            assert_eq!(signal, SIGUSR1);
            assert_eq!(info.code, sigsim::abi::SI_TKILL);
        },
        other => panic!("expected a handler entry, got {:?}", other),
    }
    e.handler_return(TID);
    match e.checkpoint(TID) {
        CheckpointOutcome::EnterHandler { signal, info, .. } => {
            assert_eq!(signal, SIGUSR1);
            assert_eq!(info.code, sigsim::abi::SI_USER);
        },
        other => panic!("expected a handler entry, got {:?}", other),
    }
    e.handler_return(TID);
    assert_eq!(e.checkpoint(TID), CheckpointOutcome::Continue);
}

#[test]
fn handler_mask_blocks_signal_during_handler() {
    let mut e = DeliveryEngine::new(PID, TID);
    e.set_disposition(SIGUSR1, handler_action(0)).unwrap();
    assert_eq!(
        e.raise_thread(TID, SigInfo::new_tkill(SIGUSR1, PID, 0)),
        RaiseOutcome::Queued
    );
    match e.checkpoint(TID) {
        CheckpointOutcome::EnterHandler { .. } => {},
        other => panic!("expected a handler entry, got {:?}", other),
    }
    // inside the handler the delivered signal is blocked: a new instance
    // stays pending
    assert_eq!(
        e.raise_thread(TID, SigInfo::new_tkill(SIGUSR1, PID, 0)),
        RaiseOutcome::Queued
    );
    assert_eq!(e.checkpoint(TID), CheckpointOutcome::Continue);
    // on return the mask is restored and the pending instance delivers
    e.handler_return(TID);
    match e.checkpoint(TID) {
        CheckpointOutcome::EnterHandler { signal, .. } => assert_eq!(signal, SIGUSR1),
        other => panic!("expected a handler entry, got {:?}", other),
    }
}

#[test]
fn resethand_reverts_to_default() {
    let mut e = DeliveryEngine::new(PID, TID);
    e.set_disposition(SIGUSR1, handler_action(SA_RESETHAND)).unwrap();
    e.raise_thread(TID, SigInfo::new_tkill(SIGUSR1, PID, 0));
    match e.checkpoint(TID) {
        CheckpointOutcome::EnterHandler { .. } => {},
        other => panic!("expected a handler entry, got {:?}", other),
    }
    e.handler_return(TID);
    // the second instance hits the default action: terminate
    e.raise_thread(TID, SigInfo::new_tkill(SIGUSR1, PID, 0));
    match e.checkpoint(TID) {
        CheckpointOutcome::Terminated { signal, core_dump, .. } => {
            assert_eq!(signal, SIGUSR1);
            assert!(!core_dump);
        },
        other => panic!("expected termination, got {:?}", other),
    }
}

#[test]
fn ignored_signal_never_interrupts_blocking() {
    let mut e = DeliveryEngine::new(PID, TID);
    e.set_disposition(SIGUSR1, ignore_action()).unwrap();
    e.begin_blocking_region(TID, true);
    e.raise_thread(TID, SigInfo::new_tkill(SIGUSR1, PID, 0));
    assert_eq!(e.checkpoint(TID), CheckpointOutcome::Continue);
    assert_eq!(e.end_blocking_region(TID), RegionOutcome::Completed);
}

#[test]
fn default_ignored_signal_never_interrupts_blocking() {
    let mut e = DeliveryEngine::new(PID, TID);
    // SIGURG's default action is to ignore; leave the disposition default
    e.begin_blocking_region(TID, true);
    e.raise_thread(TID, SigInfo::new_tkill(SIGURG, PID, 0));
    assert_eq!(e.checkpoint(TID), CheckpointOutcome::Continue);
    assert_eq!(e.end_blocking_region(TID), RegionOutcome::Completed);
}

#[test]
fn handler_always_interrupts_blocking() {
    let mut e = DeliveryEngine::new(PID, TID);
    e.set_disposition(SIGUSR1, handler_action(0)).unwrap();
    e.begin_blocking_region(TID, true);
    e.raise_thread(TID, SigInfo::new_tkill(SIGUSR1, PID, 0));
    match e.checkpoint(TID) {
        CheckpointOutcome::EnterHandler { signal, .. } => assert_eq!(signal, SIGUSR1),
        other => panic!("expected a handler entry, got {:?}", other),
    }
    e.handler_return(TID);
    assert_eq!(
        e.end_blocking_region(TID),
        RegionOutcome::Interrupted { restart: false }
    );
}

#[test]
fn non_interruptible_region_holds_delivery_back() {
    let mut e = DeliveryEngine::new(PID, TID);
    e.set_disposition(SIGUSR1, handler_action(0)).unwrap();
    e.begin_blocking_region(TID, false);
    e.raise_thread(TID, SigInfo::new_tkill(SIGUSR1, PID, 0));
    // the thread stays blocked; the record stays queued
    assert_eq!(e.checkpoint(TID), CheckpointOutcome::Continue);
    assert_eq!(e.end_blocking_region(TID), RegionOutcome::Completed);
    // after the region, the next checkpoint delivers
    match e.checkpoint(TID) {
        CheckpointOutcome::EnterHandler { signal, .. } => assert_eq!(signal, SIGUSR1),
        other => panic!("expected a handler entry, got {:?}", other),
    }
}

#[test]
fn default_terminate_aborts_blocking_region() {
    let mut e = DeliveryEngine::new(PID, TID);
    // disposition stays Default; SIGUSR1's default action terminates
    e.begin_blocking_region(TID, true);
    e.raise_thread(TID, SigInfo::new_tkill(SIGUSR1, PID, 0));
    match e.checkpoint(TID) {
        CheckpointOutcome::Terminated { signal, info, core_dump } => {
            assert_eq!(signal, SIGUSR1);
            assert!(info.is_some());
            assert!(!core_dump);
        },
        other => panic!("expected termination, got {:?}", other),
    }
    // the region was aborted outright
    assert!(e.threads[0].blocking.is_none());
}

#[test]
fn restart_flag_reaches_region_outcome() {
    let mut e = DeliveryEngine::new(PID, TID);
    e.set_disposition(SIGUSR1, handler_action(SA_RESTART)).unwrap();
    e.begin_blocking_region(TID, true);
    e.raise_thread(TID, SigInfo::new_tkill(SIGUSR1, PID, 0));
    match e.checkpoint(TID) {
        CheckpointOutcome::EnterHandler { action, .. } => {
            assert_eq!(action.sa_flags & SA_RESTART, SA_RESTART);
        },
        other => panic!("expected a handler entry, got {:?}", other),
    }
    e.handler_return(TID);
    assert_eq!(
        e.end_blocking_region(TID),
        RegionOutcome::Interrupted { restart: true }
    );
}

#[test]
fn raised_kill_terminates_unconditionally() {
    let mut e = DeliveryEngine::new(PID, TID);
    // even blocked-looking masks and blocking regions cannot stop it
    e.begin_blocking_region(TID, false);
    assert_eq!(
        e.raise_thread(TID, SigInfo::new_tkill(SIGKILL, PID, 0)),
        RaiseOutcome::Delivered
    );
    match e.checkpoint(TID) {
        CheckpointOutcome::Terminated { signal, .. } => assert_eq!(signal, SIGKILL),
        other => panic!("expected termination, got {:?}", other),
    }
    assert!(e.threads[0].blocking.is_none());
}

#[test]
fn raised_stop_reports_stop() {
    let mut e = DeliveryEngine::new(PID, TID);
    assert_eq!(
        e.raise_process(SigInfo::new_user(SIGSTOP, PID, 0)),
        RaiseOutcome::Delivered
    );
    match e.checkpoint(TID) {
        CheckpointOutcome::Stopped { signal, .. } => assert_eq!(signal, SIGSTOP),
        other => panic!("expected a stop, got {:?}", other),
    }
}

#[test]
fn altstack_unconfigured_stays_disabled() {
    let mut e = DeliveryEngine::new(PID, TID);
    let disabled = StackConfig { sp: 0, flags: SS_DISABLE, size: 0 };
    let prev = e.configure_altstack(TID, Some(disabled)).unwrap();
    assert_eq!(prev, disabled);
    let now = e.configure_altstack(TID, None).unwrap();
    assert_eq!(now, disabled);
}

#[test]
fn altstack_configured_but_unused() {
    let mut e = DeliveryEngine::new(PID, TID);
    e.set_disposition(SIGUSR1, handler_action(0)).unwrap();
    let stack = StackConfig { sp: 0x7000_0000, flags: 0, size: 1 << 20 };
    e.configure_altstack(TID, Some(stack)).unwrap();
    e.raise_thread(TID, SigInfo::new_tkill(SIGUSR1, PID, 0));
    // registered without SA_ONSTACK: the handler runs on the normal stack
    match e.checkpoint(TID) {
        CheckpointOutcome::EnterHandler { stack: sel, .. } => {
            assert_eq!(sel, StackSelection::Normal);
        },
        other => panic!("expected a handler entry, got {:?}", other),
    }
    // and the configuration reads back unchanged
    assert_eq!(e.configure_altstack(TID, None).unwrap(), stack);
}

#[test]
fn altstack_used_reports_onstack() {
    let mut e = DeliveryEngine::new(PID, TID);
    e.set_disposition(SIGUSR1, handler_action(SA_ONSTACK)).unwrap();
    let stack = StackConfig { sp: 0x7000_0000, flags: 0, size: 1 << 20 };
    e.configure_altstack(TID, Some(stack)).unwrap();
    e.raise_thread(TID, SigInfo::new_tkill(SIGUSR1, PID, 0));
    match e.checkpoint(TID) {
        CheckpointOutcome::EnterHandler { stack: sel, .. } => {
            assert_eq!(sel, StackSelection::Alternate);
        },
        other => panic!("expected a handler entry, got {:?}", other),
    }
    // while the handler runs, a query reports the on-stack flag
    let during = e.configure_altstack(TID, None).unwrap();
    assert_eq!(during.flags, SS_ONSTACK);
    assert_eq!(during.sp, 0x7000_0000);
    // and reconfiguring is refused while in use
    assert_eq!(e.configure_altstack(TID, Some(stack)), Err(SignalError::Busy));
    e.handler_return(TID);
    assert_eq!(e.configure_altstack(TID, None).unwrap(), stack);
}

#[test]
fn altstack_autodisarm_round_trip() {
    let mut e = DeliveryEngine::new(PID, TID);
    e.set_disposition(SIGUSR1, handler_action(SA_ONSTACK)).unwrap();
    let stack = StackConfig { sp: 0x7000_0000, flags: SS_AUTODISARM, size: 1 << 20 };
    e.configure_altstack(TID, Some(stack)).unwrap();
    e.raise_thread(TID, SigInfo::new_tkill(SIGUSR1, PID, 0));
    match e.checkpoint(TID) {
        CheckpointOutcome::EnterHandler { stack: sel, .. } => {
            assert_eq!(sel, StackSelection::Alternate);
        },
        other => panic!("expected a handler entry, got {:?}", other),
    }
    // during the handler the stack reads as disabled: null, disable, zero
    let during = e.configure_altstack(TID, None).unwrap();
    assert_eq!(during, StackConfig { sp: 0, flags: SS_DISABLE, size: 0 });
    // after return the original configuration is restored unchanged
    e.handler_return(TID);
    assert_eq!(e.configure_altstack(TID, None).unwrap(), stack);
}

#[test]
fn altstack_too_small_is_invalid() {
    let mut e = DeliveryEngine::new(PID, TID);
    let tiny = StackConfig { sp: 0x7000_0000, flags: 0, size: 100 };
    assert_eq!(
        e.configure_altstack(TID, Some(tiny)),
        Err(SignalError::InvalidArgument)
    );
}

#[test]
fn lowest_signal_delivers_first() {
    let mut e = DeliveryEngine::new(PID, TID);
    e.set_disposition(SIGUSR1, handler_action(0)).unwrap();
    e.set_disposition(sigsim::sigset::SIGUSR2, handler_action(0)).unwrap();
    e.raise_thread(TID, SigInfo::new_tkill(sigsim::sigset::SIGUSR2, PID, 0));
    e.raise_thread(TID, SigInfo::new_tkill(SIGUSR1, PID, 0));
    match e.checkpoint(TID) {
        CheckpointOutcome::EnterHandler { signal, .. } => assert_eq!(signal, SIGUSR1),
        other => panic!("expected a handler entry, got {:?}", other),
    }
}

#[test]
fn disposition_change_to_ignore_drops_pending() {
    let mut e = DeliveryEngine::new(PID, TID);
    e.set_disposition(SIGUSR1, handler_action(0)).unwrap();
    let to_block = SignalSet::empty().insert(SIGUSR1);
    e.set_mask(TID, MaskHow::Block, to_block);
    e.raise_thread(TID, SigInfo::new_tkill(SIGUSR1, PID, 0));
    e.raise_process(SigInfo::new_user(SIGUSR1, PID, 0));
    // moving to ignore discards both queued records
    e.set_disposition(SIGUSR1, ignore_action()).unwrap();
    e.set_disposition(SIGUSR1, handler_action(0)).unwrap();
    e.set_mask(TID, MaskHow::Unblock, to_block);
    assert_eq!(e.checkpoint(TID), CheckpointOutcome::Continue);
}

#[test]
fn spawned_thread_inherits_mask_not_pending() {
    let mut e = DeliveryEngine::new(PID, TID);
    e.set_disposition(SIGUSR1, handler_action(0)).unwrap();
    let to_block = SignalSet::empty().insert(SIGUSR1);
    e.set_mask(TID, MaskHow::Block, to_block);
    e.raise_thread(TID, SigInfo::new_tkill(SIGUSR1, PID, 0));

    let new_tid = TID + 1;
    e.spawn_thread(TID, new_tid);
    // the mask is inherited, the pending set is not
    let mask = e.set_mask(new_tid, MaskHow::Block, SignalSet::empty());
    assert!(mask.contains(SIGUSR1));
    assert_eq!(e.checkpoint(new_tid), CheckpointOutcome::Continue);

    // the creator still has its pending record after unblocking
    e.set_mask(TID, MaskHow::Unblock, to_block);
    match e.checkpoint(TID) {
        CheckpointOutcome::EnterHandler { signal, .. } => assert_eq!(signal, SIGUSR1),
        other => panic!("expected a handler entry, got {:?}", other),
    }
}

#[test]
fn exiting_thread_discards_its_pending() {
    let mut e = DeliveryEngine::new(PID, TID);
    e.set_disposition(SIGUSR1, handler_action(0)).unwrap();
    let second = TID + 1;
    e.spawn_thread(TID, second);
    let to_block = SignalSet::empty().insert(SIGUSR1);
    e.set_mask(second, MaskHow::Block, to_block);
    e.raise_thread(second, SigInfo::new_tkill(SIGUSR1, PID, 0));
    e.exit_thread(second);
    // the record left with the thread: nothing reaches the survivor
    assert_eq!(e.checkpoint(TID), CheckpointOutcome::Continue);
}

#[test]
fn process_directed_taken_once() {
    let mut e = DeliveryEngine::new(PID, TID);
    e.set_disposition(SIGUSR1, handler_action(0)).unwrap();
    let second = TID + 1;
    e.spawn_thread(TID, second);
    e.raise_process(SigInfo::new_user(SIGUSR1, PID, 0));
    // whichever thread checkpoints first dequeues the one record
    match e.checkpoint(second) {
        CheckpointOutcome::EnterHandler { signal, .. } => assert_eq!(signal, SIGUSR1),
        other => panic!("expected a handler entry, got {:?}", other),
    }
    e.handler_return(second);
    assert_eq!(e.checkpoint(TID), CheckpointOutcome::Continue);
    assert_eq!(e.checkpoint(second), CheckpointOutcome::Continue);
}

#[test]
fn raise_delivers_each_catchable_signal() {
    // every standard signal but the untouchable two can be caught, and a
    // raise with a handler registered delivers exactly once
    for signal in 1..=31 {
        if signal == SIGKILL || signal == SIGSTOP {
            continue;
        }
        let mut e = DeliveryEngine::new(PID, TID);
        e.set_disposition(signal, handler_action(0)).unwrap();
        e.raise_thread(TID, SigInfo::new_tkill(signal, PID, 0));
        match e.checkpoint(TID) {
            CheckpointOutcome::EnterHandler { signal: s, info, .. } => {
                assert_eq!(s, signal);
                assert_eq!(info.signal, signal);
            },
            other => panic!("signal {}: expected a handler entry, got {:?}", signal, other),
        }
        e.handler_return(TID);
        assert_eq!(e.checkpoint(TID), CheckpointOutcome::Continue);

        // with an ignore disposition the same raise delivers nothing
        e.set_disposition(signal, ignore_action()).unwrap();
        e.raise_thread(TID, SigInfo::new_tkill(signal, PID, 0));
        assert_eq!(e.checkpoint(TID), CheckpointOutcome::Continue);
    }
}

#[test]
fn mask_blocks_each_catchable_signal() {
    // block, raise three times, unblock: exactly one delivery per signal
    for signal in 1..=31 {
        if signal == SIGKILL || signal == SIGSTOP {
            continue;
        }
        let mut e = DeliveryEngine::new(PID, TID);
        e.set_disposition(signal, handler_action(0)).unwrap();
        let set = SignalSet::empty().insert(signal);
        e.set_mask(TID, MaskHow::Block, set);
        let current = e.set_mask(TID, MaskHow::Block, SignalSet::empty());
        assert!(current.contains(signal));
        for _ in 0..3 {
            e.raise_thread(TID, SigInfo::new_tkill(signal, PID, 0));
        }
        assert_eq!(e.checkpoint(TID), CheckpointOutcome::Continue);
        e.set_mask(TID, MaskHow::Unblock, set);
        match e.checkpoint(TID) {
            CheckpointOutcome::EnterHandler { signal: s, .. } => assert_eq!(s, signal),
            other => panic!("signal {}: expected a handler entry, got {:?}", signal, other),
        }
        e.handler_return(TID);
        assert_eq!(e.checkpoint(TID), CheckpointOutcome::Continue);
    }
}

#[test]
fn process_pending_reaches_one_of_many_threads() {
    let mut e = DeliveryEngine::new(PID, TID);
    e.set_disposition(SIGUSR1, handler_action(0)).unwrap();
    for k in 1..=10 {
        e.spawn_thread(TID, TID + k);
    }
    e.raise_process(SigInfo::new_user(SIGUSR1, PID, 0));
    // exactly one of the threads observes the delivery
    let mut deliveries = 0;
    for k in 0..=10 {
        match e.checkpoint(TID + k) {
            CheckpointOutcome::EnterHandler { signal, .. } => {
                assert_eq!(signal, SIGUSR1);
                deliveries += 1;
                e.handler_return(TID + k);
            },
            CheckpointOutcome::Continue => {},
            other => panic!("unexpected outcome {:?}", other),
        }
    }
    assert_eq!(deliveries, 1);
}
