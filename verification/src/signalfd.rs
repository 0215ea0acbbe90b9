//! `signalfd4`: reading blocked signals as records.

use vstd::prelude::*;
use crate::abi::{FD_CLOEXEC, SIGUSR1, SIGUSR2};
use crate::harness::{Sys, SysVal, TestResult, check, check_ok, guard, nested, ok, passed, that};

verus! {

/// The size of a `signalfd_siginfo` record.
pub const SIGINFO_SIZE: i64 = 128;

/// Whether two signal numbers read in turn are SIGUSR1 and SIGUSR2, in
/// either order.
pub open spec fn both_usr_signals(s1: u32, s2: u32) -> bool {
    (s1 == SIGUSR1 as u32 && s2 == SIGUSR2 as u32) || (s1 == SIGUSR2 as u32 && s2 == SIGUSR1 as u32)
}

/// `SFD_CLOEXEC` sets close-on-exec.
pub fn signalfd_create_cloexec(create: Sys, getfd: SysVal, close: Sys) -> (r: TestResult)
    ensures
        r == guard(ok(create, "signalfd"), guard(ok(getfd, "F_GETFD"),
            guard(that((getfd->Ok_0) & FD_CLOEXEC != 0, "CLOEXEC"),
            guard(ok(close, "close"), passed())))),
{
    check_ok(create, "signalfd")?;
    let fl = check_ok(getfd, "F_GETFD")?;
    check(fl & FD_CLOEXEC != 0, "CLOEXEC")?;
    check_ok(close, "close")?;
    Ok(())
}

/// A blocked SIGUSR1 sent to the process reads as one record naming
/// SIGUSR1 and the process as sender (`discard`: `discard_pending` of
/// SIGUSR1).
pub fn signalfd_read_sigusr1(
    block: Sys,
    create: Sys,
    kill: Sys,
    read: SysVal,
    signo: u32,
    sender: u32,
    pid: u32,
    close: Sys,
    discard: TestResult,
) -> (r: TestResult)
    ensures
        r == guard(ok(block, "block"), guard(ok(create, "signalfd"), guard(ok(kill, "kill self"),
            guard(ok(read, "read"), guard(that((read->Ok_0) == SIGINFO_SIZE, "info size"),
            guard(that(signo == SIGUSR1 as u32, "ssi_signo"), guard(that(sender == pid, "ssi_pid"),
            guard(ok(close, "close"), guard(nested(discard), passed()))))))))),
{
    check_ok(block, "block")?;
    check_ok(create, "signalfd")?;
    check_ok(kill, "kill self")?;
    let n = check_ok(read, "read")?;
    check(n == SIGINFO_SIZE, "info size")?;
    check(signo == SIGUSR1 as u32, "ssi_signo")?;
    check(sender == pid, "ssi_pid")?;
    check_ok(close, "close")?;
    discard?;
    Ok(())
}

/// SIGUSR1 and SIGUSR2 both read back, in either order.
pub fn signalfd_two_signals(
    block: Sys,
    create: Sys,
    kill1: Sys,
    kill2: Sys,
    read1: Sys,
    s1: u32,
    read2: Sys,
    s2: u32,
    close: Sys,
    discard1: TestResult,
    discard2: TestResult,
) -> (r: TestResult)
    ensures
        r == guard(ok(block, "block"), guard(ok(create, "signalfd"), guard(ok(kill1, "kill1"),
            guard(ok(kill2, "kill2"), guard(ok(read1, "read1"), guard(ok(read2, "read2"),
            guard(that(both_usr_signals(s1, s2), "both signals"), guard(ok(close, "close"),
            guard(nested(discard1), guard(nested(discard2), passed())))))))))),
{
    check_ok(block, "block")?;
    check_ok(create, "signalfd")?;
    check_ok(kill1, "kill1")?;
    check_ok(kill2, "kill2")?;
    check_ok(read1, "read1")?;
    check_ok(read2, "read2")?;
    check((s1 == SIGUSR1 as u32 && s2 == SIGUSR2 as u32) || (s1 == SIGUSR2 as u32 && s2 == SIGUSR1 as u32), "both signals")?;
    check_ok(close, "close")?;
    discard1?;
    discard2?;
    Ok(())
}

/// Replacing a signalfd's mask keeps the descriptor and makes it read the
/// new signal.
pub fn signalfd_replace_mask(
    block: Sys,
    create: SysVal,
    replace: SysVal,
    kill: Sys,
    read: Sys,
    signo: u32,
    close: Sys,
    discard1: TestResult,
    discard2: TestResult,
) -> (r: TestResult)
    ensures
        r == guard(ok(block, "block"), guard(ok(create, "signalfd"), guard(ok(replace, "replace"),
            guard(that((replace->Ok_0) == (create->Ok_0), "same fd"), guard(ok(kill, "kill"),
            guard(ok(read, "read"), guard(that(signo == SIGUSR2 as u32, "usr2"),
            guard(ok(close, "close"), guard(nested(discard1),
            guard(nested(discard2), passed())))))))))),
{
    check_ok(block, "block")?;
    let fd = check_ok(create, "signalfd")?;
    let fd2 = check_ok(replace, "replace")?;
    check(fd2 == fd, "same fd")?;
    check_ok(kill, "kill")?;
    check_ok(read, "read")?;
    check(signo == SIGUSR2 as u32, "usr2")?;
    check_ok(close, "close")?;
    discard1?;
    discard2?;
    Ok(())
}

} // verus!
