//! Signal sets, pending queues and metadata packing.

use sigsim::abi::SI_QUEUE;
use sigsim::abi::SI_TKILL;
use sigsim::abi::SI_USER;
use sigsim::abi::pack32;
use sigsim::pending::PendingSignals;
use sigsim::pending::RaiseOutcome;
use sigsim::sigset::SIGKILL;
use sigsim::sigset::SIGSTOP;
use sigsim::sigset::SIGUSR1;
use sigsim::sigset::SIGUSR2;
use sigsim::sigset::SignalSet;
use sigsim::sigset::default_action;
use sigsim::sigset::DefaultAction;
use sigsim::sinfo::SigInfo;
use sigsim::sinfo::SigInfoDetails;

#[test]
fn signal_set_operations() {
    let a = SignalSet::empty();
    assert!(a.is_empty());
    assert!(!a.contains(SIGUSR1));

    let a = a.insert(SIGUSR1).insert(SIGUSR2);
    assert!(a.contains(SIGUSR1));
    assert!(a.contains(SIGUSR2));
    assert!(!a.contains(SIGKILL));
    assert!(!a.is_empty());
    assert_eq!(a.lowest_set(), Some(SIGUSR1));

    let b = a.remove(SIGUSR1);
    assert!(!b.contains(SIGUSR1));
    assert!(b.contains(SIGUSR2));
    assert_eq!(b.lowest_set(), Some(SIGUSR2));

    let u = a.union(SignalSet::empty().insert(1));
    assert!(u.contains(1) && u.contains(SIGUSR1) && u.contains(SIGUSR2));

    let i = u.intersect(a);
    assert!(!i.contains(1) && i.contains(SIGUSR1));

    let d = u.difference(a);
    assert!(d.contains(1) && !d.contains(SIGUSR1));

    let s = SignalSet::empty().insert(SIGKILL).insert(SIGSTOP).insert(2).scrub();
    assert!(!s.contains(SIGKILL) && !s.contains(SIGSTOP) && s.contains(2));

    // membership is total: numbers outside the range are never members
    assert!(!a.contains(0));
    assert!(!a.contains(65));
    assert!(!a.contains(-3));

    // the highest real-time signal sits in the top bit
    let top = SignalSet::empty().insert(64);
    assert!(top.contains(64));
    assert_eq!(top.lowest_set(), Some(64));
    assert_eq!(top.bits, 1 << 63);
}

#[test]
fn default_actions_table() {
    assert_eq!(default_action(sigsim::sigset::SIGCHLD), DefaultAction::Ignore);
    assert_eq!(default_action(sigsim::sigset::SIGURG), DefaultAction::Ignore);
    assert_eq!(default_action(sigsim::sigset::SIGCONT), DefaultAction::Continue);
    assert_eq!(default_action(SIGSTOP), DefaultAction::Stop);
    assert_eq!(default_action(sigsim::sigset::SIGTSTP), DefaultAction::Stop);
    assert_eq!(default_action(sigsim::sigset::SIGSEGV), DefaultAction::CoreDump);
    assert_eq!(default_action(SIGKILL), DefaultAction::Terminate);
    assert_eq!(default_action(SIGUSR1), DefaultAction::Terminate);
    assert_eq!(default_action(40), DefaultAction::Terminate);
}

#[test]
fn pending_take_deliverable_respects_mask() {
    let mut p = PendingSignals::new();
    let usr1 = SigInfo::new_tkill(SIGUSR1, 1, 0);
    let usr2 = SigInfo::new_tkill(SIGUSR2, 1, 0);
    assert_eq!(p.raise(usr2), RaiseOutcome::Queued);
    assert_eq!(p.raise(usr1), RaiseOutcome::Queued);

    // with the lower signal masked, the higher one comes out
    let mask = SignalSet::empty().insert(SIGUSR1);
    assert_eq!(p.take_deliverable(&mask), Some((SIGUSR2, usr2)));
    // unmasked, the remaining one follows
    assert_eq!(p.take_deliverable(&SignalSet::empty()), Some((SIGUSR1, usr1)));
    assert_eq!(p.take_deliverable(&SignalSet::empty()), None);
}

#[test]
fn pending_untouchable_is_never_queued() {
    let mut p = PendingSignals::new();
    assert_eq!(p.raise(SigInfo::new_user(SIGKILL, 1, 0)), RaiseOutcome::Delivered);
    assert!(!p.is_pending(SIGKILL));
    assert_eq!(p.raise(SigInfo::new_user(SIGSTOP, 1, 0)), RaiseOutcome::Delivered);
    assert!(!p.is_pending(SIGSTOP));
}

#[test]
fn pending_discard_empties_one_slot() {
    let mut p = PendingSignals::new();
    p.raise(SigInfo::new_tkill(SIGUSR1, 1, 0));
    p.raise(SigInfo::new_tkill(SIGUSR2, 1, 0));
    p.discard(SIGUSR1);
    assert!(!p.is_pending(SIGUSR1));
    assert!(p.is_pending(SIGUSR2));
}

#[test]
fn siginfo_codes_match_origin() {
    let user = SigInfo::new_user(SIGUSR1, 42, 1000);
    assert_eq!(user.code, SI_USER);
    let tkill = SigInfo::new_tkill(SIGUSR1, 42, 1000);
    assert_eq!(tkill.code, SI_TKILL);
    let rt = SigInfo::new_rt(40, 42, 1000, 9);
    assert_eq!(rt.code, SI_QUEUE);
    assert_eq!(rt.details, SigInfoDetails::Rt { sender_pid: 42, sender_uid: 1000, value: 9 });
}

#[test]
fn siginfo_record_packs_sender_identity() {
    let info = SigInfo::new_user(SIGUSR1, 42, 1000);
    let record = info.to_record();
    assert_eq!(record.signo(), SIGUSR1);
    assert_eq!(record.code(), SI_USER);
    let fields = record.__bindgen_anon_1.__bindgen_anon_1._sifields;
    // pid in the low 32 bits, uid above it
    assert_eq!(fields.w0, 42 + 1000 * 4294967296);
    assert_eq!(fields.w1, 0);
}

#[test]
fn siginfo_record_packs_negative_fields() {
    // a negative pid keeps its 32-bit two's-complement image in the low half
    assert_eq!(pack32(-1, 5), 4294967295 + 5 * 4294967296);
    let info = SigInfo::new_child(
        sigsim::sinfo::CLD_EXITED,
        1234,
        0,
        7,
        -1,
        2,
    );
    let record = info.to_record();
    let fields = record.__bindgen_anon_1.__bindgen_anon_1._sifields;
    assert_eq!(fields.w0, 1234);
    assert_eq!(fields.w1, 7);
    assert_eq!(fields.w2, u64::MAX);
    assert_eq!(fields.w3, 2);
}

#[test]
fn siginfo_record_packs_queued_value() {
    let info = SigInfo::new_rt(40, 10, 20, 777);
    let record = info.to_record();
    let fields = record.__bindgen_anon_1.__bindgen_anon_1._sifields;
    assert_eq!(fields.w0, 10 + 20 * 4294967296);
    assert_eq!(fields.w1, 777);
}
