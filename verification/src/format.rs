//! Rendering of emulated syscall invocations for the trace log.
//!
//! A syscall is shown as its name, its arguments and its result. Each
//! argument is rendered by one of a small closed set of strategies —
//! signed or unsigned integer, raw pointer, pointer with peeked data,
//! fixed-size array — selected by the declared syscall signature. The
//! bytes behind a pointer live in simulated memory, which an outside
//! collaborator owns: the caller peeks them and hands the plain values
//! in; everything here is pure rendering with an exact contract.

use vstd::prelude::*;

use crate::numfmt;
use crate::numfmt::spec_dec;
use crate::numfmt::spec_dec_i64;
use crate::numfmt::spec_pad2;
use crate::numfmt::spec_pad3;
use crate::numfmt::spec_ptr;
use crate::simtime::SIMTIME_ONE_HOUR;
use crate::simtime::SIMTIME_ONE_MILLISECOND;
use crate::simtime::SIMTIME_ONE_MINUTE;
use crate::simtime::SIMTIME_ONE_SECOND;
use crate::simtime::SimulationTime;

verus! {

/// One raw syscall register value.
#[derive(Clone, Copy, PartialEq, Eq, Structural, Debug)]
pub struct SysCallReg {
    pub value: u64,
}

impl SysCallReg {
    pub fn new(value: u64) -> (r: SysCallReg)
        ensures
            r.value == value,
    {
        SysCallReg { value }
    }

    /// The register read as a signed value.
    pub fn as_i64(&self) -> (r: i64)
        ensures
            r == self.value as i64,
    {
        #[verifier::truncate]
        let r: i64 = self.value as i64;
        r
    }
}

/// A pointer-valued syscall argument: the guest address it carries.
#[derive(Clone, Copy, PartialEq, Eq, Structural, Debug)]
pub struct SyscallPtr {
    pub ptr: u64,
}

impl SyscallPtr {
    pub fn new(ptr: u64) -> (r: SyscallPtr)
        ensures
            r.ptr == ptr,
    {
        SyscallPtr { ptr }
    }
}

/// Conversion of a raw register into a typed argument value.
pub trait TryFromSyscallReg: Sized {
    fn try_from_reg(reg: SysCallReg) -> Option<Self>;
}

impl TryFromSyscallReg for u64 {
    fn try_from_reg(reg: SysCallReg) -> (r: Option<u64>)
        ensures
            r == Option::Some(reg.value),
    {
        Option::Some(reg.value)
    }
}

impl TryFromSyscallReg for i64 {
    fn try_from_reg(reg: SysCallReg) -> (r: Option<i64>)
        ensures
            r == Option::Some(reg.value as i64),
    {
        #[verifier::truncate]
        let v: i64 = reg.value as i64;
        Option::Some(v)
    }
}

impl TryFromSyscallReg for u32 {
    fn try_from_reg(reg: SysCallReg) -> (r: Option<u32>)
        ensures
            reg.value <= u32::MAX ==> r == Option::Some(reg.value as u32),
            reg.value > u32::MAX ==> r is None,
    {
        if reg.value <= 4294967295 {
            Option::Some(reg.value as u32)
        } else {
            Option::None
        }
    }
}

impl TryFromSyscallReg for SyscallPtr {
    fn try_from_reg(reg: SysCallReg) -> (r: Option<SyscallPtr>)
        ensures
            r == Option::Some(SyscallPtr { ptr: reg.value }),
    {
        Option::Some(SyscallPtr { ptr: reg.value })
    }
}

/// Rendering of a plain data value.
pub trait SyscallDataDisplay {
    fn fmt(&self) -> String;
}

impl SyscallDataDisplay for u64 {
    fn fmt(&self) -> (r: String)
        ensures
            r@ == spec_dec(*self as nat),
    {
        numfmt::u64_to_string(*self)
    }
}

impl SyscallDataDisplay for i64 {
    fn fmt(&self) -> (r: String)
        ensures
            r@ == spec_dec_i64(*self as int),
    {
        numfmt::i64_to_string(*self)
    }
}

/// Rendering of a pointer argument, with the data the caller peeked
/// behind it, if any.
pub trait SyscallPtrDisplay {
    fn fmt_ptr(&self, peek: &PtrPeek) -> String;
}

impl SyscallPtrDisplay for SyscallPtr {
    fn fmt_ptr(&self, peek: &PtrPeek) -> (r: String)
        ensures
            r@ == spec_fmt_ptr(self.ptr as nat, *peek),
    {
        fmt_ptr_value(self.ptr, peek)
    }
}

/// A marker for an unused argument position: rendering stops at the
/// first one.
#[derive(Clone, Copy, PartialEq, Eq, Structural, Debug, Default)]
pub struct NoArg {
}

impl TryFromSyscallReg for NoArg {
    fn try_from_reg(reg: SysCallReg) -> (r: Option<NoArg>)
        ensures
            r == Option::Some(NoArg {  }),
    {
        Option::Some(NoArg {  })
    }
}

impl SyscallDataDisplay for NoArg {
    fn fmt(&self) -> (r: String)
        ensures
            r@ == Seq::<char>::empty(),
    {
        String::new()
    }
}

/// How an integer-valued argument is shown.
#[derive(Clone, Copy, PartialEq, Eq, Structural, Debug)]
pub enum DataKind {
    Signed,
    Unsigned,
}

/// What the caller peeked from simulated memory behind a pointer
/// argument: nothing, one value, or a fixed-size array of values.
#[derive(Clone, PartialEq, Eq, Debug)]
pub enum PtrPeek {
    Raw,
    Value(u64),
    Array(Vec<u64>),
}

/// A syscall value, either plain data or a pointer.
#[derive(Clone, PartialEq, Eq, Debug)]
pub enum SyscallVal {
    Data(SysCallReg, DataKind),
    Ptr(SyscallPtr, PtrPeek),
}

/// Building a syscall value from a register and what, if anything, was
/// read from simulated memory behind it.
pub trait FromSyscallMem: Sized {
    fn from_mem(reg: SysCallReg, peek: Option<PtrPeek>, kind: DataKind) -> Self;
}

impl FromSyscallMem for SyscallVal {
    /// With peeked memory the register is a pointer; without it, data.
    fn from_mem(reg: SysCallReg, peek: Option<PtrPeek>, kind: DataKind) -> (r: SyscallVal)
        ensures
            r == (match peek {
                Option::Some(p) => SyscallVal::Ptr(SyscallPtr { ptr: reg.value }, p),
                Option::None => SyscallVal::Data(reg, kind),
            }),
    {
        match peek {
            Option::Some(p) => SyscallVal::Ptr(SyscallPtr { ptr: reg.value }, p),
            Option::None => SyscallVal::Data(reg, kind),
        }
    }
}

/// The rendering of an array of peeked values: `[a, b, c]`.
pub open spec fn spec_fmt_array(vs: Seq<u64>) -> Seq<char>
    decreases vs.len(),
{
    if vs.len() == 0 {
        Seq::empty()
    } else if vs.len() == 1 {
        spec_dec(vs[0] as nat)
    } else {
        spec_fmt_array(vs.drop_last()) + seq![',', ' '] + spec_dec(vs.last() as nat)
    }
}

/// The rendering of a pointer with its peeked data.
pub open spec fn spec_fmt_ptr(ptr: nat, peek: PtrPeek) -> Seq<char> {
    match peek {
        PtrPeek::Raw => spec_ptr(ptr),
        PtrPeek::Value(v) => spec_dec(v as nat) + seq![' ', '('] + spec_ptr(ptr) + seq![')'],
        PtrPeek::Array(vs) => seq!['['] + spec_fmt_array(vs@) + seq![']', ' ', '('] + spec_ptr(ptr)
            + seq![')'],
    }
}

/// The rendering of one syscall value.
pub open spec fn spec_fmt_val(v: SyscallVal) -> Seq<char> {
    match v {
        SyscallVal::Data(reg, DataKind::Signed) => spec_dec_i64(reg.value as i64 as int),
        SyscallVal::Data(reg, DataKind::Unsigned) => spec_dec(reg.value as nat),
        SyscallVal::Ptr(p, peek) => spec_fmt_ptr(p.ptr as nat, peek),
    }
}

/// Append the rendering of an array of peeked values.
fn push_array(out: &mut String, vs: &Vec<u64>)
    ensures
        final(out)@ == old(out)@ + spec_fmt_array(vs@),
{
    let n = vs.len();
    let mut i: usize = 0;
    while i < n
        invariant
            n == vs@.len(),
            i <= n,
            out@ == old(out)@ + spec_fmt_array(vs@.take(i as int)),
        decreases n - i,
    {
        if i > 0 {
            proof {
                reveal_strlit(", ");
                assert(", "@ =~= seq![',', ' ']);
            }
            out.append(", ");
        }
        numfmt::push_dec_u64(out, vs[i]);
        proof {
            assert(vs@.take(i as int + 1).drop_last() =~= vs@.take(i as int));
            assert(vs@.take(i as int + 1).last() == vs@[i as int]);
            assert(out@ =~= old(out)@ + spec_fmt_array(vs@.take(i as int + 1)));
        }
        i = i + 1;
    }
    proof {
        assert(vs@.take(n as int) =~= vs@);
    }
}

/// Append the rendering of a pointer with its peeked data.
fn push_ptr_value(out: &mut String, ptr: u64, peek: &PtrPeek)
    ensures
        final(out)@ == old(out)@ + spec_fmt_ptr(ptr as nat, *peek),
{
    match peek {
        PtrPeek::Raw => {
            numfmt::push_ptr(out, ptr);
        },
        PtrPeek::Value(v) => {
            numfmt::push_dec_u64(out, *v);
            proof {
                reveal_strlit(" (");
                reveal_strlit(")");
                assert(" ("@ =~= seq![' ', '(']);
                assert(")"@ =~= seq![')']);
            }
            out.append(" (");
            numfmt::push_ptr(out, ptr);
            out.append(")");
            proof {
                assert(final(out)@ =~= old(out)@ + spec_fmt_ptr(ptr as nat, *peek));
            }
        },
        PtrPeek::Array(vs) => {
            proof {
                reveal_strlit("[");
                reveal_strlit("] (");
                reveal_strlit(")");
                assert("["@ =~= seq!['[']);
                assert("] ("@ =~= seq![']', ' ', '(']);
                assert(")"@ =~= seq![')']);
            }
            out.append("[");
            push_array(out, vs);
            out.append("] (");
            numfmt::push_ptr(out, ptr);
            out.append(")");
            proof {
                assert(final(out)@ =~= old(out)@ + spec_fmt_ptr(ptr as nat, *peek));
            }
        },
    }
}

/// The rendering of a pointer with its peeked data, as a new string.
fn fmt_ptr_value(ptr: u64, peek: &PtrPeek) -> (r: String)
    ensures
        r@ == spec_fmt_ptr(ptr as nat, *peek),
{
    let mut out = String::new();
    push_ptr_value(&mut out, ptr, peek);
    proof {
        assert(out@ =~= spec_fmt_ptr(ptr as nat, *peek));
    }
    out
}

/// Append the rendering of one syscall value.
fn push_val(out: &mut String, v: &SyscallVal)
    ensures
        final(out)@ == old(out)@ + spec_fmt_val(*v),
{
    match v {
        SyscallVal::Data(reg, DataKind::Signed) => {
            #[verifier::truncate]
            let signed: i64 = reg.value as i64;
            numfmt::push_dec_i64(out, signed);
        },
        SyscallVal::Data(reg, DataKind::Unsigned) => {
            numfmt::push_dec_u64(out, reg.value);
        },
        SyscallVal::Ptr(p, peek) => {
            push_ptr_value(out, p.ptr, peek);
        },
    }
}

impl SyscallVal {
    /// The rendering of this value, as a new string.
    pub fn fmt(&self) -> (r: String)
        ensures
            r@ == spec_fmt_val(*self),
    {
        let mut out = String::new();
        push_val(&mut out, self);
        proof {
            assert(out@ =~= spec_fmt_val(*self));
        }
        out
    }
}

/// The rendering of an argument list: the values joined by `, `.
pub open spec fn spec_fmt_args(vs: Seq<SyscallVal>) -> Seq<char>
    decreases vs.len(),
{
    if vs.len() == 0 {
        Seq::empty()
    } else if vs.len() == 1 {
        spec_fmt_val(vs[0])
    } else {
        spec_fmt_args(vs.drop_last()) + seq![',', ' '] + spec_fmt_val(vs.last())
    }
}

/// A formatting wrapper for a syscall's argument list.
#[derive(Clone, PartialEq, Eq, Debug)]
pub struct SyscallArgsFmt {
    pub args: Vec<SyscallVal>,
}

impl SyscallArgsFmt {
    /// Wrap the declared arguments of one invocation; trailing unused
    /// positions are simply not passed.
    pub fn new(args: Vec<SyscallVal>) -> (r: SyscallArgsFmt)
        ensures
            r.args@ == args@,
    {
        SyscallArgsFmt { args }
    }

    /// The rendering of the whole argument list.
    pub fn fmt(&self) -> (r: String)
        ensures
            r@ == spec_fmt_args(self.args@),
    {
        let mut out = String::new();
        let n = self.args.len();
        let mut i: usize = 0;
        while i < n
            invariant
                n == self.args@.len(),
                i <= n,
                out@ == spec_fmt_args(self.args@.take(i as int)),
            decreases n - i,
        {
            if i > 0 {
                proof {
                    reveal_strlit(", ");
                    assert(", "@ =~= seq![',', ' ']);
                }
                out.append(", ");
            }
            push_val(&mut out, &self.args[i]);
            proof {
                assert(self.args@.take(i as int + 1).drop_last() =~= self.args@.take(i as int));
                assert(self.args@.take(i as int + 1).last() == self.args@[i as int]);
                assert(out@ =~= spec_fmt_args(self.args@.take(i as int + 1)));
            }
            i = i + 1;
        }
        proof {
            assert(self.args@.take(n as int) =~= self.args@);
        }
        out
    }
}

/// Why a syscall produced no plain return value.
#[derive(Clone, Copy, PartialEq, Eq, Structural, Debug)]
pub enum SyscallError {
    /// Failed with this errno.
    Errno(i32),
    /// Executed natively; nothing to show.
    Native,
    /// Not completed: it will run again later and is not logged yet.
    Blocked,
}

/// What a syscall emulation came back with.
pub type SyscallResult = Result<SysCallReg, SyscallError>;

/// The name of an errno value: the classic range and the common
/// network errnos; anything else renders as the generic `E?`.
pub open spec fn spec_errno_name(e: int) -> Seq<char> {
    if e == 1 {
        "EPERM"@
    } else if e == 2 {
        "ENOENT"@
    } else if e == 3 {
        "ESRCH"@
    } else if e == 4 {
        "EINTR"@
    } else if e == 5 {
        "EIO"@
    } else if e == 6 {
        "ENXIO"@
    } else if e == 7 {
        "E2BIG"@
    } else if e == 8 {
        "ENOEXEC"@
    } else if e == 9 {
        "EBADF"@
    } else if e == 10 {
        "ECHILD"@
    } else if e == 11 {
        "EAGAIN"@
    } else if e == 12 {
        "ENOMEM"@
    } else if e == 13 {
        "EACCES"@
    } else if e == 14 {
        "EFAULT"@
    } else if e == 15 {
        "ENOTBLK"@
    } else if e == 16 {
        "EBUSY"@
    } else if e == 17 {
        "EEXIST"@
    } else if e == 18 {
        "EXDEV"@
    } else if e == 19 {
        "ENODEV"@
    } else if e == 20 {
        "ENOTDIR"@
    } else if e == 21 {
        "EISDIR"@
    } else if e == 22 {
        "EINVAL"@
    } else if e == 23 {
        "ENFILE"@
    } else if e == 24 {
        "EMFILE"@
    } else if e == 25 {
        "ENOTTY"@
    } else if e == 26 {
        "ETXTBSY"@
    } else if e == 27 {
        "EFBIG"@
    } else if e == 28 {
        "ENOSPC"@
    } else if e == 29 {
        "ESPIPE"@
    } else if e == 30 {
        "EROFS"@
    } else if e == 31 {
        "EMLINK"@
    } else if e == 32 {
        "EPIPE"@
    } else if e == 33 {
        "EDOM"@
    } else if e == 34 {
        "ERANGE"@
    } else if e == 38 {
        "ENOSYS"@
    } else if e == 88 {
        "ENOTSOCK"@
    } else if e == 98 {
        "EADDRINUSE"@
    } else if e == 104 {
        "ECONNRESET"@
    } else if e == 107 {
        "ENOTCONN"@
    } else if e == 110 {
        "ETIMEDOUT"@
    } else if e == 111 {
        "ECONNREFUSED"@
    } else if e == 115 {
        "EINPROGRESS"@
    } else {
        "E?"@
    }
}

/// Executable form of [`spec_errno_name`].
pub fn errno_name(e: i32) -> (r: &'static str)
    ensures
        r@ == spec_errno_name(e as int),
{
    if e == 1 {
        "EPERM"
    } else if e == 2 {
        "ENOENT"
    } else if e == 3 {
        "ESRCH"
    } else if e == 4 {
        "EINTR"
    } else if e == 5 {
        "EIO"
    } else if e == 6 {
        "ENXIO"
    } else if e == 7 {
        "E2BIG"
    } else if e == 8 {
        "ENOEXEC"
    } else if e == 9 {
        "EBADF"
    } else if e == 10 {
        "ECHILD"
    } else if e == 11 {
        "EAGAIN"
    } else if e == 12 {
        "ENOMEM"
    } else if e == 13 {
        "EACCES"
    } else if e == 14 {
        "EFAULT"
    } else if e == 15 {
        "ENOTBLK"
    } else if e == 16 {
        "EBUSY"
    } else if e == 17 {
        "EEXIST"
    } else if e == 18 {
        "EXDEV"
    } else if e == 19 {
        "ENODEV"
    } else if e == 20 {
        "ENOTDIR"
    } else if e == 21 {
        "EISDIR"
    } else if e == 22 {
        "EINVAL"
    } else if e == 23 {
        "ENFILE"
    } else if e == 24 {
        "EMFILE"
    } else if e == 25 {
        "ENOTTY"
    } else if e == 26 {
        "ETXTBSY"
    } else if e == 27 {
        "EFBIG"
    } else if e == 28 {
        "ENOSPC"
    } else if e == 29 {
        "ESPIPE"
    } else if e == 30 {
        "EROFS"
    } else if e == 31 {
        "EMLINK"
    } else if e == 32 {
        "EPIPE"
    } else if e == 33 {
        "EDOM"
    } else if e == 34 {
        "ERANGE"
    } else if e == 38 {
        "ENOSYS"
    } else if e == 88 {
        "ENOTSOCK"
    } else if e == 98 {
        "EADDRINUSE"
    } else if e == 104 {
        "ECONNRESET"
    } else if e == 107 {
        "ENOTCONN"
    } else if e == 110 {
        "ETIMEDOUT"
    } else if e == 111 {
        "ECONNREFUSED"
    } else if e == 115 {
        "EINPROGRESS"
    } else {
        "E?"
    }
}

/// The rendering of a completed result: the value for success, the
/// negated errno and its name for a failure, a placeholder for a
/// natively executed call.
pub open spec fn spec_fmt_result(rv: SyscallResult, kind: DataKind) -> Seq<char> {
    match rv {
        Result::Ok(reg) => spec_fmt_val(SyscallVal::Data(reg, kind)),
        Result::Err(SyscallError::Errno(e)) => spec_dec_i64(-(e as int)) + seq![' ', '(']
            + spec_errno_name(e as int) + seq![')'],
        Result::Err(SyscallError::Native) => "<native>"@,
        Result::Err(SyscallError::Blocked) => Seq::empty(),
    }
}

/// A formatting wrapper for a syscall's result.
#[derive(Clone, Copy, PartialEq, Eq, Debug)]
pub struct SyscallResultFmt {
    pub rv: SyscallResult,
    pub kind: DataKind,
}

impl SyscallResultFmt {
    /// A result that is logged never carries the blocked marker.
    pub open spec fn wf(self) -> bool {
        self.rv != Result::<SysCallReg, SyscallError>::Err(SyscallError::Blocked)
    }

    /// Wrap a completed result. A blocked syscall is not completed — it
    /// will be re-run later — so it yields nothing to log.
    pub fn new(rv: &SyscallResult, kind: DataKind) -> (r: Option<SyscallResultFmt>)
        ensures
            (r is Some) <==> *rv != Result::<SysCallReg, SyscallError>::Err(SyscallError::Blocked),
            r matches Option::Some(f) ==> f == (SyscallResultFmt { rv: *rv, kind }) && f.wf(),
    {
        match rv {
            Result::Err(SyscallError::Blocked) => Option::None,
            _ => Option::Some(SyscallResultFmt { rv: *rv, kind }),
        }
    }

    /// The rendering of the result.
    pub fn fmt(&self) -> (r: String)
        requires
            self.wf(),
        ensures
            r@ == spec_fmt_result(self.rv, self.kind),
    {
        match self.rv {
            Result::Ok(reg) => {
                let v = SyscallVal::Data(reg, self.kind);
                let mut out = String::new();
                push_val(&mut out, &v);
                proof {
                    assert(out@ =~= spec_fmt_result(self.rv, self.kind));
                }
                out
            },
            Result::Err(SyscallError::Errno(e)) => {
                let mut out = String::new();
                let negated: i64 = -(e as i64);
                numfmt::push_dec_i64(&mut out, negated);
                proof {
                    reveal_strlit(" (");
                    reveal_strlit(")");
                    assert(" ("@ =~= seq![' ', '(']);
                    assert(")"@ =~= seq![')']);
                }
                out.append(" (");
                out.append(errno_name(e));
                out.append(")");
                proof {
                    assert(out@ =~= spec_fmt_result(self.rv, self.kind));
                }
                out
            },
            Result::Err(SyscallError::Native) => {
                let out = String::new().concat("<native>");
                proof {
                    assert(out@ =~= spec_fmt_result(self.rv, self.kind));
                }
                out
            },
            Result::Err(SyscallError::Blocked) => {
                proof {
                    assert(false);
                }
                String::new()
            },
        }
    }
}

/// The `hh:mm:ss.mmm` rendering of a simulated time.
pub open spec fn spec_time_parts(nanos: nat) -> Seq<char> {
    spec_pad2(nanos / (SIMTIME_ONE_HOUR as nat)) + seq![':'] + spec_pad2(
        (nanos / (SIMTIME_ONE_MINUTE as nat)) % 60,
    ) + seq![':'] + spec_pad2((nanos / (SIMTIME_ONE_SECOND as nat)) % 60) + seq!['.'] + spec_pad3(
        (nanos / (SIMTIME_ONE_MILLISECOND as nat)) % 1000,
    )
}

/// The full trace line of one syscall:
/// `time [tid N] name(args) = rv` and a newline.
pub open spec fn spec_syscall_line(
    nanos: nat,
    tid: nat,
    name: Seq<char>,
    args: Seq<char>,
    rv: Seq<char>,
) -> Seq<char> {
    spec_time_parts(nanos) + " [tid "@ + spec_dec(tid) + "] "@ + name + "("@ + args + ") = "@ + rv
        + "\n"@
}

/// Append the `hh:mm:ss.mmm` rendering of a simulated time.
fn push_time_parts(out: &mut String, sim_time: &SimulationTime)
    ensures
        final(out)@ == old(out)@ + spec_time_parts(sim_time.nanos as nat),
{
    proof {
        reveal_strlit(":");
        reveal_strlit(".");
        assert(":"@ =~= seq![':']);
        assert("."@ =~= seq!['.']);
    }
    let hours = sim_time.nanos / SIMTIME_ONE_HOUR;
    let minutes = (sim_time.nanos / SIMTIME_ONE_MINUTE) % 60;
    let seconds = (sim_time.nanos / SIMTIME_ONE_SECOND) % 60;
    let millis = (sim_time.nanos / SIMTIME_ONE_MILLISECOND) % 1000;
    numfmt::push_pad2(out, hours);
    out.append(":");
    numfmt::push_pad2(out, minutes);
    out.append(":");
    numfmt::push_pad2(out, seconds);
    out.append(".");
    numfmt::push_pad3(out, millis);
    proof {
        assert(final(out)@ =~= old(out)@ + spec_time_parts(sim_time.nanos as nat));
    }
}

/// Format and write the syscall: the line goes onto `out`, a plain text
/// sink the host flushes to its trace file.
pub fn write_syscall(
    out: &mut String,
    sim_time: &SimulationTime,
    tid: u32,
    name: &str,
    args: &str,
    rv: &str,
)
    ensures
        final(out)@ == old(out)@ + spec_syscall_line(
            sim_time.nanos as nat,
            tid as nat,
            name@,
            args@,
            rv@,
        ),
{
    push_time_parts(out, sim_time);
    out.append(" [tid ");
    numfmt::push_dec_u64(out, tid as u64);
    out.append("] ");
    out.append(name);
    out.append("(");
    out.append(args);
    out.append(") = ");
    out.append(rv);
    out.append("\n");
    proof {
        assert(final(out)@ =~= old(out)@ + spec_syscall_line(
            sim_time.nanos as nat,
            tid as nat,
            name@,
            args@,
            rv@,
        ));
    }
}

/// The logging facade the syscall handlers call: one line per completed
/// invocation.
pub struct SyscallLogger {
}

impl SyscallLogger {
    /// Render the arguments and result and write the trace line. A
    /// blocked result logs nothing: the syscall will run again.
    pub fn log(
        out: &mut String,
        sim_time: &SimulationTime,
        tid: u32,
        name: &str,
        args: &SyscallArgsFmt,
        rv: &SyscallResult,
        kind: DataKind,
    ) -> (logged: bool)
        ensures
            logged <==> *rv != Result::<SysCallReg, SyscallError>::Err(SyscallError::Blocked),
            logged ==> final(out)@ == old(out)@ + spec_syscall_line(
                sim_time.nanos as nat,
                tid as nat,
                name@,
                spec_fmt_args(args.args@),
                spec_fmt_result(*rv, kind),
            ),
            !logged ==> final(out)@ == old(out)@,
    {
        match SyscallResultFmt::new(rv, kind) {
            Option::None => false,
            Option::Some(f) => {
                let args_text = args.fmt();
                let rv_text = f.fmt();
                write_syscall(out, sim_time, tid, name, args_text.as_str(), rv_text.as_str());
                true
            },
        }
    }
}

} // verus!
