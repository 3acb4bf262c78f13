//! Kernel-facing record layouts for signal state.
//!
//! Simulated programs observe signal metadata through the same records a
//! kernel would hand them, so the shapes here mirror the kernel's signal
//! ABI: `sigaction` for a registered disposition and `siginfo` for the
//! metadata delivered with a signal. Unions of the kernel layout are held
//! as raw 64-bit words; the constructors below pack each variant's fields
//! into the word positions the kernel uses.

use vstd::prelude::*;

verus! {

// `sa_flags` bits of a registered handler.
pub const SA_NOCLDSTOP: u64 = 1;
pub const SA_NOCLDWAIT: u64 = 2;
pub const SA_SIGINFO: u64 = 4;
pub const SA_ONSTACK: u64 = 134217728;
pub const SA_RESTART: u64 = 268435456;
pub const SA_NODEFER: u64 = 1073741824;
pub const SA_RESETHAND: u64 = 2147483648;

// Reserved `sa_handler` values.
pub const SIG_DFL: u64 = 0;
pub const SIG_IGN: u64 = 1;

// `si_code` values for the origin of a signal.
pub const SI_USER: i32 = 0;
pub const SI_KERNEL: i32 = 128;
pub const SI_QUEUE: i32 = -1;
pub const SI_TIMER: i32 = -2;
pub const SI_TKILL: i32 = -6;

// `how` values accepted when changing a signal mask.
pub const SIG_BLOCK: u32 = 0;
pub const SIG_UNBLOCK: u32 = 1;
pub const SIG_SETMASK: u32 = 2;

/// A signal mask in its kernel shape: one bit per signal.
pub type sigset_t = u64;

/// Whether `flags` carries the flag bit `f`.
pub open spec fn has_flag(flags: u64, f: u64) -> bool {
    flags & f != 0
}

/// Executable form of [`has_flag`].
pub fn flag_set(flags: u64, f: u64) -> (r: bool)
    ensures
        r == has_flag(flags, f),
{
    flags & f != 0
}

/// A registered signal action, in the kernel's `sigaction` shape.
///
/// `sa_handler` holds the guest address of the handler entry point, or
/// one of the reserved values [`SIG_DFL`] and [`SIG_IGN`]. `sa_mask` is
/// the extra set of signals blocked while the handler runs.
#[derive(Clone, Copy, PartialEq, Eq, Structural, Debug)]
pub struct sigaction {
    pub sa_handler: u64,
    pub sa_flags: u64,
    pub sa_restorer: u64,
    pub sa_mask: sigset_t,
}

/// The three dispositions a registered action can denote.
#[derive(Clone, Copy, PartialEq, Eq, Structural, Debug)]
pub enum Disposition {
    Default,
    Ignore,
    Handler,
}

impl sigaction {
    /// The action that leaves a signal at its default behaviour.
    pub fn default_action() -> (r: sigaction)
        ensures
            r.sa_handler == SIG_DFL,
            r.sa_flags == 0,
            r.sa_restorer == 0,
            r.sa_mask == 0,
    {
        sigaction { sa_handler: SIG_DFL, sa_flags: 0, sa_restorer: 0, sa_mask: 0 }
    }

    /// Which disposition this action denotes, decided by `sa_handler`.
    pub open spec fn disposition(self) -> Disposition {
        if self.sa_handler == SIG_DFL {
            Disposition::Default
        } else if self.sa_handler == SIG_IGN {
            Disposition::Ignore
        } else {
            Disposition::Handler
        }
    }

    /// Executable form of [`sigaction::disposition`].
    pub fn disposition_of(&self) -> (r: Disposition)
        ensures
            r == self.disposition(),
    {
        if self.sa_handler == SIG_DFL {
            Disposition::Default
        } else if self.sa_handler == SIG_IGN {
            Disposition::Ignore
        } else {
            Disposition::Handler
        }
    }
}

/// A value passed alongside a queued signal: the kernel's `sigval`,
/// an integer and a pointer sharing one 64-bit slot.
#[derive(Clone, Copy, PartialEq, Eq, Structural, Debug)]
pub struct sigval {
    pub value: u64,
}

/// The low 32 bits of a word, as a signed field is stored.
pub open spec fn spec_lo32(x: i32) -> u64 {
    (x as u32) as u64
}

/// The high 32 bits of a word.
pub open spec fn spec_hi32(x: u32) -> u64 {
    (x as u64) << 32u64
}

/// Pack two 32-bit fields into one word: `lo` in the low half, `hi` above it.
pub fn pack32(lo: i32, hi: u32) -> (r: u64)
    ensures
        r == spec_lo32(lo) | spec_hi32(hi),
{
    #[verifier::truncate]
    let l: u32 = lo as u32;
    (l as u64) | ((hi as u64) << 32u64)
}

/// A signed 64-bit field in its stored form.
pub open spec fn spec_word_i64(x: i64) -> u64 {
    x as u64
}

/// Store a signed 64-bit field.
pub fn word_i64(x: i64) -> (r: u64)
    ensures
        r == spec_word_i64(x),
{
    #[verifier::truncate]
    let r: u64 = x as u64;
    r
}

/// A signed 32-bit field stored alone in a word's low half.
pub fn word_i32(x: i32) -> (r: u64)
    ensures
        r == spec_lo32(x),
{
    #[verifier::truncate]
    let l: u32 = x as u32;
    l as u64
}

/// Sender identity of a user-sent signal: the `_kill` arm of the
/// kernel's `sifields` union.
#[derive(Clone, Copy, PartialEq, Eq, Structural, Debug)]
pub struct __sifields__bindgen_ty_1 {
    pub _pid: i32,
    pub _uid: u32,
}

/// Timer-expiry metadata: the `_timer` arm.
#[derive(Clone, Copy, PartialEq, Eq, Structural, Debug)]
pub struct __sifields__bindgen_ty_2 {
    pub _tid: i32,
    pub _overrun: i32,
    pub _sigval: sigval,
    pub _sys_private: i32,
}

/// Queued real-time payload: the `_rt` arm.
#[derive(Clone, Copy, PartialEq, Eq, Structural, Debug)]
pub struct __sifields__bindgen_ty_3 {
    pub _pid: i32,
    pub _uid: u32,
    pub _sigval: sigval,
}

/// Child status change: the `_sigchld` arm.
#[derive(Clone, Copy, PartialEq, Eq, Structural, Debug)]
pub struct __sifields__bindgen_ty_4 {
    pub _pid: i32,
    pub _uid: u32,
    pub _status: i32,
    pub _utime: i64,
    pub _stime: i64,
}

/// Bound-check fault detail inside the `_sigfault` arm.
#[derive(Clone, Copy, PartialEq, Eq, Debug)]
pub struct __sifields__bindgen_ty_5__bindgen_ty_1__bindgen_ty_1 {
    pub _dummy_bnd: [u8; 8],
    pub _lower: u64,
    pub _upper: u64,
}

/// Protection-key fault detail inside the `_sigfault` arm.
#[derive(Clone, Copy, PartialEq, Eq, Debug)]
pub struct __sifields__bindgen_ty_5__bindgen_ty_1__bindgen_ty_2 {
    pub _dummy_pkey: [u8; 8],
    pub _pkey: u32,
}

/// Performance-event fault detail inside the `_sigfault` arm.
#[derive(Clone, Copy, PartialEq, Eq, Structural, Debug)]
pub struct __sifields__bindgen_ty_5__bindgen_ty_1__bindgen_ty_3 {
    pub _data: u64,
    pub _type: u32,
    pub _flags: u32,
}

/// The fault-detail union of the `_sigfault` arm: three words of
/// overlapping storage.
#[derive(Clone, Copy, PartialEq, Eq, Structural, Debug)]
pub struct __sifields__bindgen_ty_5__bindgen_ty_1 {
    pub w0: u64,
    pub w1: u64,
    pub w2: u64,
}

/// Memory-fault metadata: the `_sigfault` arm.
#[derive(Clone, Copy, PartialEq, Eq, Structural, Debug)]
pub struct __sifields__bindgen_ty_5 {
    pub _addr: u64,
    pub __bindgen_anon_1: __sifields__bindgen_ty_5__bindgen_ty_1,
}

/// Poll readiness: the `_sigpoll` arm.
#[derive(Clone, Copy, PartialEq, Eq, Structural, Debug)]
pub struct __sifields__bindgen_ty_6 {
    pub _band: i64,
    pub _fd: i32,
}

/// Seccomp / bad-syscall metadata: the `_sigsys` arm.
#[derive(Clone, Copy, PartialEq, Eq, Structural, Debug)]
pub struct __sifields__bindgen_ty_7 {
    pub _call_addr: u64,
    pub _syscall: i32,
    pub _arch: u32,
}

/// The kernel's `sifields` union: 32 bytes of storage whose reading
/// depends on `si_code`. Held as four raw words; the constructors pack
/// each arm's fields at the offsets the kernel layout gives them.
#[derive(Clone, Copy, PartialEq, Eq, Structural, Debug)]
pub struct __sifields {
    pub w0: u64,
    pub w1: u64,
    pub w2: u64,
    pub w3: u64,
}

impl __sifields {
    /// Storage with every word clear.
    pub fn zeroed() -> (r: __sifields)
        ensures
            r == (__sifields { w0: 0, w1: 0, w2: 0, w3: 0 }),
    {
        __sifields { w0: 0, w1: 0, w2: 0, w3: 0 }
    }

    /// Pack the `_kill` arm: pid in the low half of the first word, uid above it.
    pub fn kill(f: __sifields__bindgen_ty_1) -> (r: __sifields)
        ensures
            r.w0 == spec_lo32(f._pid) | spec_hi32(f._uid),
            r.w1 == 0 && r.w2 == 0 && r.w3 == 0,
    {
        __sifields { w0: pack32(f._pid, f._uid), w1: 0, w2: 0, w3: 0 }
    }

    /// Pack the `_timer` arm: tid and overrun share the first word, the
    /// queued value fills the second, the private slot the third.
    pub fn timer(f: __sifields__bindgen_ty_2) -> (r: __sifields)
        ensures
            r.w0 == spec_lo32(f._tid) | spec_hi32(f._overrun as u32),
            r.w1 == f._sigval.value,
            r.w2 == spec_lo32(f._sys_private),
            r.w3 == 0,
    {
        #[verifier::truncate]
        let overrun_bits: u32 = f._overrun as u32;
        __sifields {
            w0: pack32(f._tid, overrun_bits),
            w1: f._sigval.value,
            w2: word_i32(f._sys_private),
            w3: 0,
        }
    }

    /// Pack the `_rt` arm: sender identity then the queued value.
    pub fn rt(f: __sifields__bindgen_ty_3) -> (r: __sifields)
        ensures
            r.w0 == spec_lo32(f._pid) | spec_hi32(f._uid),
            r.w1 == f._sigval.value,
            r.w2 == 0 && r.w3 == 0,
    {
        __sifields { w0: pack32(f._pid, f._uid), w1: f._sigval.value, w2: 0, w3: 0 }
    }

    /// Pack the `_sigchld` arm: identity, exit status, then the two times.
    pub fn sigchld(f: __sifields__bindgen_ty_4) -> (r: __sifields)
        ensures
            r.w0 == spec_lo32(f._pid) | spec_hi32(f._uid),
            r.w1 == spec_lo32(f._status),
            r.w2 == spec_word_i64(f._utime),
            r.w3 == spec_word_i64(f._stime),
    {
        __sifields {
            w0: pack32(f._pid, f._uid),
            w1: word_i32(f._status),
            w2: word_i64(f._utime),
            w3: word_i64(f._stime),
        }
    }

    /// Pack the `_sigfault` arm: faulting address then the detail words.
    pub fn sigfault(f: __sifields__bindgen_ty_5) -> (r: __sifields)
        ensures
            r.w0 == f._addr,
            r.w1 == f.__bindgen_anon_1.w0,
            r.w2 == f.__bindgen_anon_1.w1,
            r.w3 == f.__bindgen_anon_1.w2,
    {
        __sifields {
            w0: f._addr,
            w1: f.__bindgen_anon_1.w0,
            w2: f.__bindgen_anon_1.w1,
            w3: f.__bindgen_anon_1.w2,
        }
    }

    /// Pack the `_sigpoll` arm: band then descriptor.
    pub fn sigpoll(f: __sifields__bindgen_ty_6) -> (r: __sifields)
        ensures
            r.w0 == spec_word_i64(f._band),
            r.w1 == spec_lo32(f._fd),
            r.w2 == 0 && r.w3 == 0,
    {
        __sifields { w0: word_i64(f._band), w1: word_i32(f._fd), w2: 0, w3: 0 }
    }

    /// Pack the `_sigsys` arm: call address, then syscall number and arch.
    pub fn sigsys(f: __sifields__bindgen_ty_7) -> (r: __sifields)
        ensures
            r.w0 == f._call_addr,
            r.w1 == spec_lo32(f._syscall) | spec_hi32(f._arch),
            r.w2 == 0 && r.w3 == 0,
    {
        __sifields { w0: f._call_addr, w1: pack32(f._syscall, f._arch), w2: 0, w3: 0 }
    }
}

/// The leading fields every delivered record carries, followed by the
/// cause-specific storage.
#[derive(Clone, Copy, PartialEq, Eq, Structural, Debug)]
pub struct siginfo__bindgen_ty_1__bindgen_ty_1 {
    pub si_signo: i32,
    pub si_errno: i32,
    pub si_code: i32,
    pub _sifields: __sifields,
}

/// The kernel pads a delivered record to 128 bytes; the tail words are
/// never read.
#[derive(Clone, Copy, PartialEq, Eq, Debug)]
pub struct siginfo__bindgen_ty_1 {
    pub __bindgen_anon_1: siginfo__bindgen_ty_1__bindgen_ty_1,
    pub _si_pad: [u64; 10],
}

/// A delivered signal record in the kernel's 128-byte `siginfo` shape.
#[derive(Clone, Copy, PartialEq, Eq, Debug)]
pub struct siginfo {
    pub __bindgen_anon_1: siginfo__bindgen_ty_1,
}

impl siginfo {
    /// Assemble a record from its leading fields and packed storage.
    pub fn assemble(si_signo: i32, si_errno: i32, si_code: i32, fields: __sifields) -> (r: siginfo)
        ensures
            r.__bindgen_anon_1.__bindgen_anon_1.si_signo == si_signo,
            r.__bindgen_anon_1.__bindgen_anon_1.si_errno == si_errno,
            r.__bindgen_anon_1.__bindgen_anon_1.si_code == si_code,
            r.__bindgen_anon_1.__bindgen_anon_1._sifields == fields,
    {
        siginfo {
            __bindgen_anon_1: siginfo__bindgen_ty_1 {
                __bindgen_anon_1: siginfo__bindgen_ty_1__bindgen_ty_1 {
                    si_signo,
                    si_errno,
                    si_code,
                    _sifields: fields,
                },
                _si_pad: [0u64; 10],
            },
        }
    }

    /// The signal number the record announces.
    pub fn signo(&self) -> (r: i32)
        ensures
            r == self.__bindgen_anon_1.__bindgen_anon_1.si_signo,
    {
        self.__bindgen_anon_1.__bindgen_anon_1.si_signo
    }

    /// The origin code the record announces.
    pub fn code(&self) -> (r: i32)
        ensures
            r == self.__bindgen_anon_1.__bindgen_anon_1.si_code,
    {
        self.__bindgen_anon_1.__bindgen_anon_1.si_code
    }
}

} // verus!
