//! Signal delivery with `kill`, and how `wait4` reports a killed child.

use vstd::prelude::*;
use crate::abi::{SIGKILL, SIGTERM};
use crate::errno::ESRCH;
use crate::harness::{Sys, TestResult, check, check_ok, guard, ok, passed, that};
use crate::wait_status::{spec_term_sig, wifsignaled, wtermsig};

verus! {

/// Whether a wait status reports death by a signal.
pub open spec fn spec_signaled(status: i32) -> bool {
    spec_term_sig(status) != 0 && spec_term_sig(status) != 0x7f
}

/// Signal 0 to the process itself succeeds.
pub fn kill_self_zero(kill: Sys) -> (r: TestResult)
    ensures
        r == guard(ok(kill, "kill(self,0)"), passed()),
{
    check_ok(kill, "kill(self,0)")?;
    Ok(())
}

/// A child sent SIGTERM is reported dead by SIGTERM.
pub fn kill_child_sigterm(fork: Sys, kill: Sys, wait: Sys, status: i32) -> (r: TestResult)
    ensures
        r == guard(ok(fork, "fork"), guard(ok(kill, "kill SIGTERM"), guard(ok(wait, "wait4"),
            guard(that(spec_signaled(status), "signaled"),
            guard(that(spec_term_sig(status) == SIGTERM, "SIGTERM"), passed()))))),
{
    check_ok(fork, "fork")?;
    check_ok(kill, "kill SIGTERM")?;
    check_ok(wait, "wait4")?;
    check(wifsignaled(status), "signaled")?;
    check(wtermsig(status) == SIGTERM, "SIGTERM")?;
    Ok(())
}

/// A child sent SIGKILL is reported dead by SIGKILL.
pub fn kill_child_sigkill(fork: Sys, kill: Sys, wait: Sys, status: i32) -> (r: TestResult)
    ensures
        r == guard(ok(fork, "fork"), guard(ok(kill, "kill SIGKILL"), guard(ok(wait, "wait4"),
            guard(that(spec_signaled(status), "signaled"),
            guard(that(spec_term_sig(status) == SIGKILL, "SIGKILL"), passed()))))),
{
    check_ok(fork, "fork")?;
    check_ok(kill, "kill SIGKILL")?;
    check_ok(wait, "wait4")?;
    check(wifsignaled(status), "signaled")?;
    check(wtermsig(status) == SIGKILL, "SIGKILL")?;
    Ok(())
}

/// Signal 0 to an unused pid fails with ESRCH or succeeds.
pub fn kill_invalid_pid(kill: Sys) -> (r: TestResult)
    ensures
        r == guard(that(kill is Ok || kill->Err_0.0 == ESRCH, "kill invalid pid errno"), passed()),
{
    check(match kill { Ok(_) => true, Err(e) => e.0 == ESRCH }, "kill invalid pid errno")?;
    Ok(())
}

/// A child sent SIGTERM is reported dead by a signal.
pub fn wait_signaled_sigterm(fork: Sys, kill: Sys, wait: Sys, status: i32) -> (r: TestResult)
    ensures
        r == guard(ok(fork, "fork"), guard(ok(kill, "kill"), guard(ok(wait, "wait"),
            guard(that(spec_signaled(status), "WIFSIGNALED"), passed())))),
{
    check_ok(fork, "fork")?;
    check_ok(kill, "kill")?;
    check_ok(wait, "wait")?;
    check(wifsignaled(status), "WIFSIGNALED")?;
    Ok(())
}

/// A child sent SIGKILL is reported dead by SIGKILL.
pub fn wait_signaled_sigkill(fork: Sys, kill: Sys, wait: Sys, status: i32) -> (r: TestResult)
    ensures
        r == guard(ok(fork, "fork"), guard(ok(kill, "kill"), guard(ok(wait, "wait"),
            guard(that(spec_signaled(status), "WIFSIGNALED"),
            guard(that(spec_term_sig(status) == SIGKILL, "term sig"), passed()))))),
{
    check_ok(fork, "fork")?;
    check_ok(kill, "kill")?;
    check_ok(wait, "wait")?;
    check(wifsignaled(status), "WIFSIGNALED")?;
    check(wtermsig(status) == SIGKILL, "term sig")?;
    Ok(())
}

} // verus!
