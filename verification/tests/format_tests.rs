//! Exact rendering of syscall trace text.

use sigsim::format::DataKind;
use sigsim::format::NoArg;
use sigsim::format::PtrPeek;
use sigsim::format::SysCallReg;
use sigsim::format::SyscallArgsFmt;
use sigsim::format::SyscallDataDisplay;
use sigsim::format::SyscallError;
use sigsim::format::SyscallLogger;
use sigsim::format::SyscallPtr;
use sigsim::format::SyscallPtrDisplay;
use sigsim::format::SyscallResultFmt;
use sigsim::format::SyscallVal;
use sigsim::format::TryFromSyscallReg;
use sigsim::format::errno_name;
use sigsim::format::write_syscall;
use sigsim::numfmt::i64_to_string;
use sigsim::numfmt::u64_to_string;
use sigsim::simtime::SIMTIME_ONE_MILLISECOND;
use sigsim::simtime::SIMTIME_ONE_MINUTE;
use sigsim::simtime::SimulationTime;

#[test]
fn decimal_rendering_is_exact() {
    assert_eq!(u64_to_string(0), "0");
    assert_eq!(u64_to_string(7), "7");
    assert_eq!(u64_to_string(1234), "1234");
    assert_eq!(u64_to_string(u64::MAX), "18446744073709551615");
    assert_eq!(i64_to_string(0), "0");
    assert_eq!(i64_to_string(-1), "-1");
    assert_eq!(i64_to_string(-42), "-42");
    assert_eq!(i64_to_string(i64::MIN), "-9223372036854775808");
    assert_eq!(i64_to_string(i64::MAX), "9223372036854775807");
}

#[test]
fn pointer_rendering_is_exact() {
    let p = SyscallPtr::new(0xdeadbeef);
    assert_eq!(p.fmt_ptr(&PtrPeek::Raw), "0xdeadbeef");
    assert_eq!(p.fmt_ptr(&PtrPeek::Value(7)), "7 (0xdeadbeef)");
    assert_eq!(
        p.fmt_ptr(&PtrPeek::Array(vec![1, 2, 3])),
        "[1, 2, 3] (0xdeadbeef)"
    );
    assert_eq!(SyscallPtr::new(0).fmt_ptr(&PtrPeek::Raw), "0x0");
    assert_eq!(
        SyscallPtr::new(16).fmt_ptr(&PtrPeek::Array(vec![])),
        "[] (0x10)"
    );
}

#[test]
fn data_value_rendering() {
    let max = SysCallReg::new(u64::MAX);
    assert_eq!(SyscallVal::Data(max, DataKind::Signed).fmt(), "-1");
    assert_eq!(
        SyscallVal::Data(max, DataKind::Unsigned).fmt(),
        "18446744073709551615"
    );
    assert_eq!(7u64.fmt(), "7");
    assert_eq!((-7i64).fmt(), "-7");
    assert_eq!(NoArg::default().fmt(), "");
}

#[test]
fn register_conversions() {
    let reg = SysCallReg::new(u64::MAX);
    assert_eq!(u64::try_from_reg(reg), Some(u64::MAX));
    assert_eq!(i64::try_from_reg(reg), Some(-1));
    assert_eq!(u32::try_from_reg(reg), None);
    assert_eq!(u32::try_from_reg(SysCallReg::new(12)), Some(12));
    assert_eq!(reg.as_i64(), -1);
}

#[test]
fn argument_list_rendering() {
    let args = SyscallArgsFmt::new(vec![
        SyscallVal::Data(SysCallReg::new(2), DataKind::Unsigned),
        SyscallVal::Ptr(SyscallPtr::new(0x10), PtrPeek::Raw),
        SyscallVal::Data(SysCallReg::new(100), DataKind::Signed),
    ]);
    assert_eq!(args.fmt(), "2, 0x10, 100");
    assert_eq!(SyscallArgsFmt::new(vec![]).fmt(), "");
}

#[test]
fn result_rendering() {
    let ok: Result<SysCallReg, SyscallError> = Ok(SysCallReg::new(3));
    let f = SyscallResultFmt::new(&ok, DataKind::Signed).unwrap();
    assert_eq!(f.fmt(), "3");

    let failed: Result<SysCallReg, SyscallError> = Err(SyscallError::Errno(4));
    let f = SyscallResultFmt::new(&failed, DataKind::Signed).unwrap();
    assert_eq!(f.fmt(), "-4 (EINTR)");

    let native: Result<SysCallReg, SyscallError> = Err(SyscallError::Native);
    let f = SyscallResultFmt::new(&native, DataKind::Signed).unwrap();
    assert_eq!(f.fmt(), "<native>");

    // a blocked syscall is not completed and yields nothing to log
    let blocked: Result<SysCallReg, SyscallError> = Err(SyscallError::Blocked);
    assert!(SyscallResultFmt::new(&blocked, DataKind::Signed).is_none());

    assert_eq!(errno_name(22), "EINVAL");
    assert_eq!(errno_name(1), "EPERM");
    assert_eq!(errno_name(34), "ERANGE");
    assert_eq!(errno_name(38), "ENOSYS");
    assert_eq!(errno_name(110), "ETIMEDOUT");
    assert_eq!(errno_name(12345), "E?");
}

#[test]
fn syscall_line_is_exact() {
    let mut out = String::new();
    let time = SimulationTime::from(5 * SIMTIME_ONE_MINUTE + 7 * SIMTIME_ONE_MILLISECOND);
    write_syscall(&mut out, &time, 1, "read", "2, 0x10", "-4 (EINTR)");
    assert_eq!(out, "00:05:00.007 [tid 1] read(2, 0x10) = -4 (EINTR)\n");
}

#[test]
fn logger_writes_completed_results_only() {
    let mut out = String::new();
    let time = SimulationTime::from(0);
    let args = SyscallArgsFmt::new(vec![SyscallVal::Data(
        SysCallReg::new(5),
        DataKind::Unsigned,
    )]);

    let blocked: Result<SysCallReg, SyscallError> = Err(SyscallError::Blocked);
    assert!(!SyscallLogger::log(&mut out, &time, 7, "close", &args, &blocked, DataKind::Signed));
    assert_eq!(out, "");

    let ok: Result<SysCallReg, SyscallError> = Ok(SysCallReg::new(0));
    assert!(SyscallLogger::log(&mut out, &time, 7, "close", &args, &ok, DataKind::Signed));
    assert_eq!(out, "00:00:00.000 [tid 7] close(5) = 0\n");
}
