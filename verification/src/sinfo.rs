//! The tagged model of delivered-signal metadata.
//!
//! The kernel's `siginfo` stores its cause-specific fields in overlapping
//! storage and the origin code decides which reading is meaningful. Here
//! the metadata is a tagged value: exactly one variant is populated, and
//! well-formedness ties the variant to the origin code, so the engine can
//! never read a field whose tag does not match. [`SigInfo::to_record`]
//! packs a value into the kernel's record shape for the guest to see.

use vstd::prelude::*;

use crate::abi;
use crate::abi::__sifields;
use crate::abi::siginfo;
use crate::sigset;

verus! {

// Child-status codes carried by `si_code` of a child-change record.
pub const CLD_EXITED: i32 = 1;
pub const CLD_KILLED: i32 = 2;
pub const CLD_DUMPED: i32 = 3;
pub const CLD_TRAPPED: i32 = 4;
pub const CLD_STOPPED: i32 = 5;
pub const CLD_CONTINUED: i32 = 6;

/// The cause-specific part of a signal's metadata; the populated variant
/// is the one the origin code announces.
#[derive(Clone, Copy, PartialEq, Eq, Structural, Debug)]
pub enum SigInfoDetails {
    /// A user-sent signal: `kill`, `tkill` or `tgkill`.
    Kill { sender_pid: i32, sender_uid: u32 },
    /// A timer expiry.
    Timer { timer_id: i32, overrun: i32, value: u64 },
    /// A queued real-time signal carrying a value.
    Rt { sender_pid: i32, sender_uid: u32, value: u64 },
    /// A child changed state.
    Child { child_pid: i32, child_uid: u32, status: i32, utime: i64, stime: i64 },
    /// A memory fault at an address.
    Fault { addr: u64 },
    /// Poll readiness on a descriptor.
    Poll { band: i64, fd: i32 },
    /// A trapped system call.
    Sys { call_addr: u64, syscall: i32, arch: u32 },
}

/// The metadata delivered with one signal instance.
#[derive(Clone, Copy, PartialEq, Eq, Structural, Debug)]
pub struct SigInfo {
    pub signal: i32,
    pub errno: i32,
    pub code: i32,
    pub details: SigInfoDetails,
}

impl SigInfo {
    /// The origin code matches the populated variant, and the signal
    /// number is valid.
    pub open spec fn wf(self) -> bool {
        sigset::valid_signal(self.signal as int) && match self.details {
            SigInfoDetails::Kill { .. } => self.code == abi::SI_USER || self.code == abi::SI_TKILL,
            SigInfoDetails::Timer { .. } => self.code == abi::SI_TIMER,
            SigInfoDetails::Rt { .. } => self.code == abi::SI_QUEUE,
            SigInfoDetails::Child { .. } => CLD_EXITED <= self.code <= CLD_CONTINUED
                && self.signal == sigset::SIGCHLD,
            SigInfoDetails::Fault { .. } => self.code >= 1,
            SigInfoDetails::Poll { .. } => 1 <= self.code <= 6,
            SigInfoDetails::Sys { .. } => self.code >= 1,
        }
    }

    /// Metadata of a process-directed `kill`.
    pub fn new_user(signal: i32, sender_pid: i32, sender_uid: u32) -> (r: SigInfo)
        requires
            sigset::valid_signal(signal as int),
        ensures
            r.wf(),
            r.signal == signal,
            r.errno == 0,
            r.code == abi::SI_USER,
            r.details == (SigInfoDetails::Kill { sender_pid, sender_uid }),
    {
        SigInfo {
            signal,
            errno: 0,
            code: abi::SI_USER,
            details: SigInfoDetails::Kill { sender_pid, sender_uid },
        }
    }

    /// Metadata of a thread-directed `tkill` or `tgkill`.
    pub fn new_tkill(signal: i32, sender_pid: i32, sender_uid: u32) -> (r: SigInfo)
        requires
            sigset::valid_signal(signal as int),
        ensures
            r.wf(),
            r.signal == signal,
            r.errno == 0,
            r.code == abi::SI_TKILL,
            r.details == (SigInfoDetails::Kill { sender_pid, sender_uid }),
    {
        SigInfo {
            signal,
            errno: 0,
            code: abi::SI_TKILL,
            details: SigInfoDetails::Kill { sender_pid, sender_uid },
        }
    }

    /// Metadata of a timer expiry.
    pub fn new_timer(signal: i32, timer_id: i32, overrun: i32, value: u64) -> (r: SigInfo)
        requires
            sigset::valid_signal(signal as int),
        ensures
            r.wf(),
            r.signal == signal,
            r.errno == 0,
            r.code == abi::SI_TIMER,
            r.details == (SigInfoDetails::Timer { timer_id, overrun, value }),
    {
        SigInfo {
            signal,
            errno: 0,
            code: abi::SI_TIMER,
            details: SigInfoDetails::Timer { timer_id, overrun, value },
        }
    }

    /// Metadata of a queued real-time signal.
    pub fn new_rt(signal: i32, sender_pid: i32, sender_uid: u32, value: u64) -> (r: SigInfo)
        requires
            sigset::valid_signal(signal as int),
        ensures
            r.wf(),
            r.signal == signal,
            r.errno == 0,
            r.code == abi::SI_QUEUE,
            r.details == (SigInfoDetails::Rt { sender_pid, sender_uid, value }),
    {
        SigInfo {
            signal,
            errno: 0,
            code: abi::SI_QUEUE,
            details: SigInfoDetails::Rt { sender_pid, sender_uid, value },
        }
    }

    /// Metadata of a child-status change.
    pub fn new_child(code: i32, child_pid: i32, child_uid: u32, status: i32, utime: i64, stime: i64) -> (r: SigInfo)
        requires
            CLD_EXITED <= code <= CLD_CONTINUED,
        ensures
            r.wf(),
            r.signal == sigset::SIGCHLD,
            r.errno == 0,
            r.code == code,
            r.details == (SigInfoDetails::Child { child_pid, child_uid, status, utime, stime }),
    {
        SigInfo {
            signal: sigset::SIGCHLD,
            errno: 0,
            code,
            details: SigInfoDetails::Child { child_pid, child_uid, status, utime, stime },
        }
    }

    /// Pack the metadata into the kernel's 128-byte record shape, each
    /// field at the word position the kernel layout gives it.
    pub fn to_record(&self) -> (r: siginfo)
        requires
            self.wf(),
        ensures
            r.__bindgen_anon_1.__bindgen_anon_1.si_signo == self.signal,
            r.__bindgen_anon_1.__bindgen_anon_1.si_errno == self.errno,
            r.__bindgen_anon_1.__bindgen_anon_1.si_code == self.code,
            r.__bindgen_anon_1.__bindgen_anon_1._sifields == self.spec_fields(),
    {
        let fields: __sifields = match self.details {
            SigInfoDetails::Kill { sender_pid, sender_uid } => __sifields::kill(
                abi::__sifields__bindgen_ty_1 { _pid: sender_pid, _uid: sender_uid },
            ),
            SigInfoDetails::Timer { timer_id, overrun, value } => __sifields::timer(
                abi::__sifields__bindgen_ty_2 {
                    _tid: timer_id,
                    _overrun: overrun,
                    _sigval: abi::sigval { value },
                    _sys_private: 0,
                },
            ),
            SigInfoDetails::Rt { sender_pid, sender_uid, value } => __sifields::rt(
                abi::__sifields__bindgen_ty_3 {
                    _pid: sender_pid,
                    _uid: sender_uid,
                    _sigval: abi::sigval { value },
                },
            ),
            SigInfoDetails::Child { child_pid, child_uid, status, utime, stime } => __sifields::sigchld(
                abi::__sifields__bindgen_ty_4 {
                    _pid: child_pid,
                    _uid: child_uid,
                    _status: status,
                    _utime: utime,
                    _stime: stime,
                },
            ),
            SigInfoDetails::Fault { addr } => __sifields::sigfault(
                abi::__sifields__bindgen_ty_5 {
                    _addr: addr,
                    __bindgen_anon_1: abi::__sifields__bindgen_ty_5__bindgen_ty_1 {
                        w0: 0,
                        w1: 0,
                        w2: 0,
                    },
                },
            ),
            SigInfoDetails::Poll { band, fd } => __sifields::sigpoll(
                abi::__sifields__bindgen_ty_6 { _band: band, _fd: fd },
            ),
            SigInfoDetails::Sys { call_addr, syscall, arch } => __sifields::sigsys(
                abi::__sifields__bindgen_ty_7 { _call_addr: call_addr, _syscall: syscall, _arch: arch },
            ),
        };
        siginfo::assemble(self.signal, self.errno, self.code, fields)
    }

    /// The packed storage [`SigInfo::to_record`] produces for this value.
    pub open spec fn spec_fields(self) -> __sifields {
        match self.details {
            SigInfoDetails::Kill { sender_pid, sender_uid } => __sifields {
                w0: abi::spec_lo32(sender_pid) | abi::spec_hi32(sender_uid),
                w1: 0,
                w2: 0,
                w3: 0,
            },
            SigInfoDetails::Timer { timer_id, overrun, value } => __sifields {
                w0: abi::spec_lo32(timer_id) | abi::spec_hi32(overrun as u32),
                w1: value,
                w2: abi::spec_lo32(0),
                w3: 0,
            },
            SigInfoDetails::Rt { sender_pid, sender_uid, value } => __sifields {
                w0: abi::spec_lo32(sender_pid) | abi::spec_hi32(sender_uid),
                w1: value,
                w2: 0,
                w3: 0,
            },
            SigInfoDetails::Child { child_pid, child_uid, status, utime, stime } => __sifields {
                w0: abi::spec_lo32(child_pid) | abi::spec_hi32(child_uid),
                w1: abi::spec_lo32(status),
                w2: abi::spec_word_i64(utime),
                w3: abi::spec_word_i64(stime),
            },
            SigInfoDetails::Fault { addr } => __sifields { w0: addr, w1: 0, w2: 0, w3: 0 },
            SigInfoDetails::Poll { band, fd } => __sifields {
                w0: abi::spec_word_i64(band),
                w1: abi::spec_lo32(fd),
                w2: 0,
                w3: 0,
            },
            SigInfoDetails::Sys { call_addr, syscall, arch } => __sifields {
                w0: call_addr,
                w1: abi::spec_lo32(syscall) | abi::spec_hi32(arch),
                w2: 0,
                w3: 0,
            },
        }
    }
}

} // verus!
