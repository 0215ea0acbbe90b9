//! `waitid` with `P_PID` and `P_ALL`.

use vstd::prelude::*;
use crate::errno::{ECHILD, ESRCH};
use crate::harness::{Sys, TestResult, check, check_ok, fail, guard, ok, passed, that};

verus! {

/// With no children, `waitid(P_ALL, WNOHANG|WEXITED)` succeeds or fails with
/// ECHILD; another error fails the test with its name (`err_name`).
pub fn waitid_nohang_no_child(wait: Sys, err_name: &'static str) -> (r: TestResult)
    ensures
        r == guard(that(wait is Ok || wait->Err_0.0 == ECHILD, err_name), passed()),
{
    match wait {
        Ok(_) => Ok(()),
        Err(e) => if e.0 == ECHILD { Ok(()) } else { Err(fail(err_name)) },
    }
}

/// With no children left, a `WNOHANG` `waitid` returns at once, whatever
/// it returns.
pub fn waitid_nohang_reaped_none(wait: Sys) -> (r: TestResult)
    ensures
        r == passed(),
{
    let _ = wait;
    Ok(())
}

/// `waitid(P_PID, WEXITED)` reaps a child that exited with 17.
pub fn waitid_after_fork_exit(fork: Sys, wait: Sys) -> (r: TestResult)
    ensures
        r == guard(ok(fork, "fork"), guard(ok(wait, "waitid"), passed())),
{
    check_ok(fork, "fork")?;
    check_ok(wait, "waitid")?;
    Ok(())
}

/// `waitid(P_PID)` reaps the named child, which exited with 33.
pub fn waitid_specific_pid(fork: Sys, wait: Sys) -> (r: TestResult)
    ensures
        r == guard(ok(fork, "fork"), guard(ok(wait, "waitid pid"), passed())),
{
    check_ok(fork, "fork")?;
    check_ok(wait, "waitid pid")?;
    Ok(())
}

/// `waitid(P_PID, WEXITED)` reaps a child that exited with 0.
pub fn waitid_zero_exit(fork: Sys, wait: Sys) -> (r: TestResult)
    ensures
        r == guard(ok(fork, "fork"), guard(ok(wait, "waitid"), passed())),
{
    check_ok(fork, "fork")?;
    check_ok(wait, "waitid")?;
    Ok(())
}

/// Two children are reaped by their pids.
pub fn waitid_two_children(fork1: Sys, fork2: Sys, wait1: Sys, wait2: Sys) -> (r: TestResult)
    ensures
        r == guard(ok(fork1, "fork1"), guard(ok(fork2, "fork2"), guard(ok(wait1, "waitid p1"),
            guard(ok(wait2, "waitid p2"), passed())))),
{
    check_ok(fork1, "fork1")?;
    check_ok(fork2, "fork2")?;
    check_ok(wait1, "waitid p1")?;
    check_ok(wait2, "waitid p2")?;
    Ok(())
}

/// `waitid(P_PID, WEXITED)` reaps a child that exited with 42.
pub fn waitid_exit_status_42(fork: Sys, wait: Sys) -> (r: TestResult)
    ensures
        r == guard(ok(fork, "fork"), guard(ok(wait, "waitid"), passed())),
{
    check_ok(fork, "fork")?;
    check_ok(wait, "waitid")?;
    Ok(())
}

/// Waiting for a pid that is not a child fails with ECHILD or ESRCH.
pub fn waitid_invalid_pid_esrch(wait: Sys) -> (r: TestResult)
    ensures
        r == guard(that(wait is Err, "expected ECHILD/ESRCH"),
            guard(that(wait->Err_0.0 == ECHILD || wait->Err_0.0 == ESRCH, "unexpected errno"), passed())),
{
    check(wait.is_err(), "expected ECHILD/ESRCH")?;
    check(match wait { Err(e) => e.0 == ECHILD || e.0 == ESRCH, Ok(_) => true }, "unexpected errno")?;
    Ok(())
}

/// `WNOHANG|WEXITED` reaps a child that already exited with 9.
pub fn waitid_nohang_after_exit(fork: Sys, wait: Sys) -> (r: TestResult)
    ensures
        r == guard(ok(fork, "fork"), guard(ok(wait, "waitid nohang"), passed())),
{
    check_ok(fork, "fork")?;
    check_ok(wait, "waitid nohang")?;
    Ok(())
}

} // verus!
