//! Processes: `fork`, `wait4` and `waitpid`, and the ids a process reads
//! of itself.

use vstd::prelude::*;
use crate::errno::ECHILD;
use crate::harness::{
    AssertFail, Round, Sys, SysVal, TestResult, check, check_ok, fail, failure, guard, nested, ok,
    passed, that,
};
use crate::wait_status::{spec_exit_code, spec_term_sig, wexitstatus, wifexited};

verus! {

/// Exit code of the child of `fork_getppid`: 0 when its parent id is the
/// parent's pid, 1 otherwise.
pub fn ppid_child_exit_code(ppid: i64, parent: i64) -> (code: i32)
    ensures
        code == (if ppid == parent { 0i32 } else { 1i32 }),
{
    if ppid == parent { 0 } else { 1 }
}

/// The step of the `WNOHANG` loop of `waitpid_wnohang_after_exit` after its
/// `i`th of 1000 calls: yield and call again while the child runs (0);
/// the pid reaped once one is; 0 (nothing reaped) on `ECHILD` or once the
/// calls run out; a failure on another error.
pub fn wnohang_step(i: u32, wait: SysVal) -> (r: Round<i64>)
    ensures
        r == (match wait {
            Ok(p) => if p != 0 { Round::Done(Ok(p)) } else if i + 1 >= 1000 { Round::Done(Ok(0)) } else {
                Round::<i64>::Sleep
            },
            Err(e) => if e.0 == ECHILD { Round::Done(Ok(0)) } else { Round::Done(Err(failure("waitpid nohang"))) },
        }),
{
    match wait {
        Ok(p) => if p != 0 {
            Round::Done(Ok(p))
        } else if i >= 999 {
            Round::Done(Ok(0))
        } else {
            Round::Sleep
        },
        Err(e) => if e.0 == ECHILD { Round::Done(Ok(0)) } else { Round::Done(Err(fail("waitpid nohang"))) },
    }
}

/// The exit codes of the two children of `fork_double_child`, in order.
pub fn double_child_code(i: usize) -> (code: i32)
    requires
        i < 2,
    ensures
        code == (if i == 0 { 11i32 } else { 22i32 }),
{
    if i == 0 { 11 } else { 22 }
}

/// A child exiting with 42 is reaped by its pid with status 42.
pub fn fork_exit_status(fork: SysVal, wait: SysVal, status: i32) -> (r: TestResult)
    ensures
        r == guard(ok(fork, "fork"), guard(ok(wait, "wait4"),
            guard(that((wait->Ok_0) == (fork->Ok_0), "pid"),
            guard(that(spec_term_sig(status) == 0, "exited"),
            guard(that(spec_exit_code(status) == 42, "status"), passed()))))),
{
    let pid = check_ok(fork, "fork")?;
    let w = check_ok(wait, "wait4")?;
    check(w == pid, "pid")?;
    check(wifexited(status), "exited")?;
    check(wexitstatus(status) == 42, "status")?;
    Ok(())
}

/// A child exiting with 0 is reported so.
pub fn fork_exit_zero(fork: Sys, wait: Sys, status: i32) -> (r: TestResult)
    ensures
        r == guard(ok(fork, "fork"), guard(ok(wait, "wait4"),
            guard(that(spec_term_sig(status) == 0, "exited"),
            guard(that(spec_exit_code(status) == 0, "status zero"), passed())))),
{
    check_ok(fork, "fork")?;
    check_ok(wait, "wait4")?;
    check(wifexited(status), "exited")?;
    check(wexitstatus(status) == 0, "status zero")?;
    Ok(())
}

/// The child sees the parent's pid as its parent id (it exits 0, see
/// `ppid_child_exit_code`).
pub fn fork_getppid(fork: Sys, wait: Sys, status: i32) -> (r: TestResult)
    ensures
        r == guard(ok(fork, "fork"), guard(ok(wait, "wait4"),
            guard(that(spec_exit_code(status) == 0, "ppid mismatch"), passed()))),
{
    check_ok(fork, "fork")?;
    check_ok(wait, "wait4")?;
    check(wexitstatus(status) == 0, "ppid mismatch")?;
    Ok(())
}

/// The pid is positive and the same twice.
pub fn getpid_stable(a: i64, b: i64) -> (r: TestResult)
    ensures
        r == guard(that(a > 0, "getpid <= 0"), guard(that(a == b, "getpid unstable"), passed())),
{
    check(a > 0, "getpid <= 0")?;
    check(a == b, "getpid unstable")?;
    Ok(())
}

/// The parent id is not negative.
pub fn getppid_non_negative(ppid: i64) -> (r: TestResult)
    ensures
        r == guard(that(ppid >= 0, "getppid negative"), passed()),
{
    check(ppid >= 0, "getppid negative")?;
    Ok(())
}

/// The real and effective uids agree.
pub fn getuid_euid_match(uid: u32, euid: u32) -> (r: TestResult)
    ensures
        r == guard(that(uid == euid, "uid != euid"), passed()),
{
    check(uid == euid, "uid != euid")?;
    Ok(())
}

/// The real and effective gids agree.
pub fn getgid_egid_match(gid: u32, egid: u32) -> (r: TestResult)
    ensures
        r == guard(that(gid == egid, "gid != egid"), passed()),
{
    check(gid == egid, "gid != egid")?;
    Ok(())
}

/// With no children, `WNOHANG` returns 0 or fails with ECHILD.
pub fn wait_nohang_nochild(wait: SysVal) -> (r: TestResult)
    ensures
        r == guard(that(!(wait is Ok && wait->Ok_0 != 0), "unexpected child"),
            guard(that(wait is Ok || wait->Err_0.0 == ECHILD, "wait WNOHANG errno"), passed())),
{
    check(match wait { Ok(p) => p == 0, Err(_) => true }, "unexpected child")?;
    check(match wait { Ok(_) => true, Err(e) => e.0 == ECHILD }, "wait WNOHANG errno")?;
    Ok(())
}

/// A child exiting with 7 is reaped by its pid with status 7.
pub fn wait4_reap_zombie(fork: SysVal, wait: SysVal, status: i32) -> (r: TestResult)
    ensures
        r == guard(ok(fork, "fork"), guard(ok(wait, "wait4"),
            guard(that((wait->Ok_0) == (fork->Ok_0), "pid"),
            guard(that(spec_exit_code(status) == 7, "status"), passed())))),
{
    let pid = check_ok(fork, "fork")?;
    let w = check_ok(wait, "wait4")?;
    check(w == pid, "pid")?;
    check(wexitstatus(status) == 7, "status")?;
    Ok(())
}

/// One child of `fork_double_child`, which exits with `code`.
pub fn double_child_round(fork: Sys, wait: Sys, status: i32, code: i32) -> (r: TestResult)
    ensures
        r == guard(ok(fork, "fork"), guard(ok(wait, "wait4"),
            guard(that(spec_exit_code(status) == code, "status"), passed()))),
{
    check_ok(fork, "fork")?;
    check_ok(wait, "wait4")?;
    check(wexitstatus(status) == code, "status")?;
    Ok(())
}

/// Two children in turn exit with 11 and 22 (`double_child_code`), each
/// reported so (`double_child_round`).
pub fn fork_double_child(first: TestResult, second: TestResult) -> (r: TestResult)
    ensures
        r == guard(nested(first), guard(nested(second), passed())),
{
    first?;
    second?;
    Ok(())
}

/// A single-threaded process's thread id is its pid.
pub fn gettid_equals_pid(tid: i64, pid: i64) -> (r: TestResult)
    ensures
        r == guard(that(tid == pid, "tid != pid"), passed()),
{
    check(tid == pid, "tid != pid")?;
    Ok(())
}

/// `waitpid` reaps a child exiting with 19.
pub fn waitpid_alias_reap(fork: SysVal, wait: SysVal, status: i32) -> (r: TestResult)
    ensures
        r == guard(ok(fork, "fork"), guard(ok(wait, "waitpid"),
            guard(that((wait->Ok_0) == (fork->Ok_0), "pid"),
            guard(that(spec_term_sig(status) == 0, "exited"),
            guard(that(spec_exit_code(status) == 19, "status"), passed()))))),
{
    let pid = check_ok(fork, "fork")?;
    let w = check_ok(wait, "waitpid")?;
    check(w == pid, "pid")?;
    check(wifexited(status), "exited")?;
    check(wexitstatus(status) == 19, "status")?;
    Ok(())
}

/// `WUNTRACED` still reaps a child exiting normally with 5.
pub fn waitpid_wuntraced_soft(fork: Sys, wait: Sys, status: i32) -> (r: TestResult)
    ensures
        r == guard(ok(fork, "fork"), guard(ok(wait, "wait WUNTRACED"),
            guard(that(spec_term_sig(status) == 0, "exited"),
            guard(that(spec_exit_code(status) == 5, "status"), passed())))),
{
    check_ok(fork, "fork")?;
    check_ok(wait, "wait WUNTRACED")?;
    check(wifexited(status), "exited")?;
    check(wexitstatus(status) == 5, "status")?;
    Ok(())
}

/// Polling with `WNOHANG` (`got`, see `wnohang_step`) reaps the child,
/// which exited with 8.
pub fn waitpid_wnohang_after_exit(
    fork: SysVal,
    got: Result<i64, AssertFail>,
    status: i32,
) -> (r: TestResult)
    ensures
        r == guard(ok(fork, "fork"), guard(nested(got),
            guard(that(got->Ok_0 == (fork->Ok_0), "reaped"),
            guard(that(spec_exit_code(status) == 8, "status"), passed())))),
{
    let pid = check_ok(fork, "fork")?;
    let g = got?;
    check(g == pid, "reaped")?;
    check(wexitstatus(status) == 8, "status")?;
    Ok(())
}

} // verus!
