//! `pidfd_open`, `pidfd_send_signal` and `pidfd_getfd`.

use vstd::prelude::*;
use crate::plan::Act;
use crate::abi::{SIGKILL, SIGTERM};
use crate::errno::{Errno, EBADF, EINVAL, ENOSYS, EPERM};
use crate::harness::{Sys, SysVal, TestResult, check, check_ok, guard, ok, only_if, passed, that};
use crate::signal::spec_signaled;
use crate::wait_status::{spec_term_sig, wifsignaled, wtermsig};

verus! {

/// Errors of `pidfd_getfd` that count as unsupported or refused here.
pub open spec fn is_getfd_soft(e: Errno) -> bool {
    e.0 == EPERM || e.0 == ENOSYS || e.0 == EBADF || e.0 == EINVAL
}

/// Exit code of the child of `pidfd_open_child_then_kill` when it cannot
/// make the pipe it blocks on: 1; `None` when it may block.
pub fn blocker_child_exit_code(pipe: Sys) -> (code: Option<i32>)
    ensures
        code == (if pipe is Err { Some(1i32) } else { None::<i32> }),
{
    if pipe.is_err() { Some(1) } else { None }
}

/// A pidfd of the process itself opens.
pub fn pidfd_open_self(open: SysVal, close: Sys) -> (r: TestResult)
    ensures
        r == guard(ok(open, "pidfd_open"), guard(that((open->Ok_0) >= 0, "fd"),
            guard(ok(close, "close"), passed()))),
{
    let fd = check_ok(open, "pidfd_open")?;
    check(fd >= 0, "fd")?;
    check_ok(close, "close")?;
    Ok(())
}

/// SIGKILL sent through a pidfd kills the child with SIGKILL.
pub fn pidfd_send_signal_sigkill_child(
    fork: Sys,
    open: Sys,
    send: Sys,
    wait: Sys,
    status: i32,
    close: Sys,
) -> (r: TestResult)
    ensures
        r == guard(ok(fork, "fork"), guard(ok(open, "pidfd_open"), guard(ok(send, "send_signal"),
            guard(ok(wait, "wait4"), guard(that(spec_signaled(status), "signaled"),
            guard(that(spec_term_sig(status) == SIGKILL, "SIGKILL"),
            guard(ok(close, "close"), passed()))))))),
{
    check_ok(fork, "fork")?;
    check_ok(open, "pidfd_open")?;
    check_ok(send, "send_signal")?;
    check_ok(wait, "wait4")?;
    check(wifsignaled(status), "signaled")?;
    check(wtermsig(status) == SIGKILL, "SIGKILL")?;
    check_ok(close, "close")?;
    Ok(())
}

/// SIGTERM sent through a pidfd kills the child with SIGTERM.
pub fn pidfd_send_signal_sigterm_child(
    fork: Sys,
    open: Sys,
    send: Sys,
    wait: Sys,
    status: i32,
    close: Sys,
) -> (r: TestResult)
    ensures
        r == guard(ok(fork, "fork"), guard(ok(open, "pidfd_open"), guard(ok(send, "send_signal"),
            guard(ok(wait, "wait4"), guard(that(spec_signaled(status), "signaled"),
            guard(that(spec_term_sig(status) == SIGTERM, "SIGTERM"),
            guard(ok(close, "close"), passed()))))))),
{
    check_ok(fork, "fork")?;
    check_ok(open, "pidfd_open")?;
    check_ok(send, "send_signal")?;
    check_ok(wait, "wait4")?;
    check(wifsignaled(status), "signaled")?;
    check(wtermsig(status) == SIGTERM, "SIGTERM")?;
    check_ok(close, "close")?;
    Ok(())
}

/// SIGKILL through a pidfd kills a child blocked on a pipe read.
pub fn pidfd_open_child_then_kill(
    fork: Sys,
    open: Sys,
    kill: Sys,
    wait: Sys,
    status: i32,
    close: Sys,
) -> (r: TestResult)
    ensures
        r == guard(ok(fork, "fork"), guard(ok(open, "pidfd_open"), guard(ok(kill, "kill"),
            guard(ok(wait, "wait"), guard(that(spec_signaled(status), "signaled"),
            guard(ok(close, "close"), passed())))))),
{
    check_ok(fork, "fork")?;
    check_ok(open, "pidfd_open")?;
    check_ok(kill, "kill")?;
    check_ok(wait, "wait")?;
    check(wifsignaled(status), "signaled")?;
    check_ok(close, "close")?;
    Ok(())
}

/// Signal 0 through a pidfd of the process itself is accepted.
pub fn pidfd_send_signal_zero_probe(open: Sys, probe: Sys, close: Sys) -> (r: TestResult)
    ensures
        r == guard(ok(open, "pidfd_open"), guard(ok(probe, "probe"),
            guard(ok(close, "close"), passed()))),
{
    check_ok(open, "pidfd_open")?;
    check_ok(probe, "probe")?;
    check_ok(close, "close")?;
    Ok(())
}

/// Taking a copy of the child's socket end gives a descriptor, or is
/// refused with EPERM, ENOSYS, EBADF or EINVAL.
pub fn pidfd_getfd_from_child_soft(
    sp: Sys,
    fork: Sys,
    open: Sys,
    getfd: SysVal,
    close_got: Sys,
    kill: Sys,
    wait: Sys,
    close_pfd: Sys,
    close_a: Sys,
) -> (r: TestResult)
    ensures
        r == guard(ok(sp, "socketpair"), guard(ok(fork, "fork"), guard(ok(open, "pidfd_open"),
            guard(only_if(getfd is Ok, that(getfd->Ok_0 >= 0, "got fd")),
            guard(only_if(getfd is Ok, ok(close_got, "close got")),
            guard(that(getfd is Ok || is_getfd_soft(getfd->Err_0), "pidfd_getfd"),
            guard(ok(kill, "kill"), guard(ok(wait, "wait"), guard(ok(close_pfd, "close pfd"),
            guard(ok(close_a, "close a"), passed())))))))))),
{
    check_ok(sp, "socketpair")?;
    check_ok(fork, "fork")?;
    check_ok(open, "pidfd_open")?;
    if getfd.is_ok() {
        check(match getfd { Ok(fd) => fd >= 0, Err(_) => true }, "got fd")?;
        check_ok(close_got, "close got")?;
    }
    check(match getfd { Ok(_) => true, Err(e) => e.0 == EPERM || e.0 == ENOSYS || e.0 == EBADF || e.0 == EINVAL }, "pidfd_getfd")?;
    check_ok(kill, "kill")?;
    check_ok(wait, "wait")?;
    check_ok(close_pfd, "close pfd")?;
    check_ok(close_a, "close a")?;
    Ok(())
}

/// The calls `pidfd_getfd_from_child_soft` makes besides its checks: when
/// `pidfd_getfd` fails other than with EPERM, ENOSYS, EBADF or EINVAL, it
/// closes the pidfd `pfd` and its socket end `a`, then kills and reaps the
/// child `pid`, before the test fails.
pub fn getfd_cleanup(pid: i64, pfd: i64, a: i64, getfd: SysVal) -> (acts: Vec<Act>)
    ensures
        acts@ == (if getfd is Err && !(getfd->Err_0.0 == EPERM || getfd->Err_0.0 == ENOSYS
            || getfd->Err_0.0 == EBADF || getfd->Err_0.0 == EINVAL) {
            seq![Act::Close(pfd), Act::Close(a), Act::KillReap(pid)]
        } else {
            Seq::<Act>::empty()
        }),
{
    match getfd {
        Err(e) => if !(e.0 == EPERM || e.0 == ENOSYS || e.0 == EBADF || e.0 == EINVAL) {
            vec![Act::Close(pfd), Act::Close(a), Act::KillReap(pid)]
        } else {
            vec![]
        },
        Ok(_) => vec![],
    }
}

} // verus!
