//! Signals in depth: `kill` probes, `rt_sigaction`, pending sets,
//! signalfd, masks and SIGCHLD.

use vstd::prelude::*;
use crate::abi::SIGUSR1;
use crate::errno::{EAGAIN, ECHILD, EPERM, ESRCH};
use crate::harness::{
    Sys, SysVal, TestResult, check, check_ok, guard, ok, only_if, passed, that,
};
use crate::sigset::{sigbit, spec_sigbit};
use crate::wait_status::{spec_exit_code, spec_term_sig, wexitstatus, wifexited};

verus! {

/// Signal 0 to this process succeeds.
pub fn sig_kill_self_zero(kill: Sys) -> (r: TestResult)
    ensures
        r == guard(ok(kill, "kill0"), passed()),
{
    check_ok(kill, "kill0")?;
    Ok(())
}

/// Signal 0 reaches a sleeping child, SIGTERM ends it and it is reaped.
pub fn sig_kill_child_zero(fork: Sys, probe: Sys, term: Sys, wait: Sys) -> (r: TestResult)
    ensures
        r == guard(ok(fork, "fork"), guard(ok(probe, "probe"), guard(ok(term, "term"),
            guard(ok(wait, "wait"), passed())))),
{
    check_ok(fork, "fork")?;
    check_ok(probe, "probe")?;
    check_ok(term, "term")?;
    check_ok(wait, "wait")?;
    Ok(())
}

/// Signal 0 to a pid that does not exist fails with ESRCH (or succeeds).
pub fn sig_kill_bad_pid_zero(kill: Sys) -> (r: TestResult)
    ensures
        r == guard(that(kill is Ok || kill->Err_0.0 == ESRCH, "kill bad"), passed()),
{
    check(match kill { Ok(_) => true, Err(e) => e.0 == ESRCH }, "kill bad")?;
    Ok(())
}

/// SIGUSR1 is set to ignore and back to default.
pub fn sig_rt_sigaction_ign(ign: Sys, restore: Sys) -> (r: TestResult)
    ensures
        r == guard(ok(ign, "ign"), guard(ok(restore, "restore"), passed())),
{
    check_ok(ign, "ign")?;
    check_ok(restore, "restore")?;
    Ok(())
}

/// SIGUSR1 is set to its default action.
pub fn sig_rt_sigaction_dfl(dfl: Sys) -> (r: TestResult)
    ensures
        r == guard(ok(dfl, "dfl"), passed()),
{
    check_ok(dfl, "dfl")?;
    Ok(())
}

/// The action of SIGUSR1 is read.
pub fn sig_rt_sigaction_get_old(get: Sys) -> (r: TestResult)
    ensures
        r == guard(ok(get, "get"), passed()),
{
    check_ok(get, "get")?;
    Ok(())
}

/// SIGUSR1 is blocked, unblocked, and the old mask restored.
pub fn sig_block_unblock_usr1(block: Sys, unblock: Sys, restore: Sys) -> (r: TestResult)
    ensures
        r == guard(ok(block, "block"), guard(ok(unblock, "unblock"),
            guard(ok(restore, "restore"), passed()))),
{
    check_ok(block, "block")?;
    check_ok(unblock, "unblock")?;
    check_ok(restore, "restore")?;
    Ok(())
}

/// A blocked SIGUSR1 sent to this process shows in the pending set.
pub fn sig_pending_after_blocked_raise(
    block: Sys,
    raise: Sys,
    pending_call: Sys,
    pending: u64,
    ign: Sys,
    restore: Sys,
    dfl: Sys,
) -> (r: TestResult)
    ensures
        r == guard(ok(block, "block"), guard(ok(raise, "raise"), guard(ok(pending_call, "pending"),
            guard(that(pending & spec_sigbit(SIGUSR1) != 0, "usr1 pending"), guard(ok(ign, "ign"),
            guard(ok(restore, "restore mask"), guard(ok(dfl, "dfl"), passed()))))))),
{
    check_ok(block, "block")?;
    check_ok(raise, "raise")?;
    check_ok(pending_call, "pending")?;
    check(pending & sigbit(SIGUSR1) != 0, "usr1 pending")?;
    check_ok(ign, "ign")?;
    check_ok(restore, "restore mask")?;
    check_ok(dfl, "dfl")?;
    Ok(())
}

/// A non-blocking signalfd for SIGUSR1 is created.
pub fn sig_signalfd_create(block: Sys, sfd: Sys, close: Sys, restore: Sys) -> (r: TestResult)
    ensures
        r == guard(ok(block, "block"), guard(ok(sfd, "sfd"), guard(ok(close, "close"),
            guard(ok(restore, "restore"), passed())))),
{
    check_ok(block, "block")?;
    check_ok(sfd, "sfd")?;
    check_ok(close, "close")?;
    check_ok(restore, "restore")?;
    Ok(())
}

/// A blocked SIGUSR1 is read from a signalfd (`signo`: the record's
/// `ssi_signo`).
pub fn sig_signalfd_read_usr1(
    block: Sys,
    sfd: Sys,
    raise: Sys,
    read: SysVal,
    signo: u32,
    close: Sys,
    restore: Sys,
) -> (r: TestResult)
    ensures
        r == guard(ok(block, "block"), guard(ok(sfd, "sfd"), guard(ok(raise, "raise"),
            guard(ok(read, "read"), guard(that((read->Ok_0) >= 4, "len"),
            guard(that(signo == 10, "signo"), guard(ok(close, "close"),
            guard(ok(restore, "restore"), passed())))))))),
{
    check_ok(block, "block")?;
    check_ok(sfd, "sfd")?;
    check_ok(raise, "raise")?;
    let n = check_ok(read, "read")?;
    check(n >= 4, "len")?;
    check(signo == 10, "signo")?;
    check_ok(close, "close")?;
    check_ok(restore, "restore")?;
    Ok(())
}

/// A read from an empty non-blocking signalfd fails with EAGAIN (or reads).
pub fn sig_signalfd_nonblock_eagain(
    block: Sys,
    sfd: Sys,
    read: SysVal,
    close: Sys,
    restore: Sys,
) -> (r: TestResult)
    ensures
        r == guard(ok(block, "block"), guard(ok(sfd, "sfd"),
            guard(that(read is Ok || read->Err_0.0 == EAGAIN, "sfd eagain"),
            guard(ok(close, "close"), guard(ok(restore, "restore"), passed()))))),
{
    check_ok(block, "block")?;
    check_ok(sfd, "sfd")?;
    check(match read { Ok(_) => true, Err(e) => e.0 == EAGAIN }, "sfd eagain")?;
    check_ok(close, "close")?;
    check_ok(restore, "restore")?;
    Ok(())
}

/// With SIGCHLD at its default, a child that exits is reaped as exited.
pub fn sig_sigchld_wait_child(dfl: Sys, fork: Sys, wait: Sys, status: i32) -> (r: TestResult)
    ensures
        r == guard(ok(dfl, "dfl"), guard(ok(fork, "fork"), guard(ok(wait, "wait"),
            guard(that(spec_term_sig(status) == 0, "exited"), passed())))),
{
    check_ok(dfl, "dfl")?;
    check_ok(fork, "fork")?;
    check_ok(wait, "wait")?;
    check(wifexited(status), "exited")?;
    Ok(())
}

/// With SIGCHLD ignored, waiting for a child that exits with 7 reports 7 or
/// fails with ECHILD (the child was reaped already).
pub fn sig_sigchld_ign_still_wait(
    ign: Sys,
    fork: Sys,
    wait: Sys,
    status: i32,
    restore: Sys,
) -> (r: TestResult)
    ensures
        r == guard(ok(ign, "ign"), guard(ok(fork, "fork"),
            guard(only_if(wait is Ok, that(spec_exit_code(status) == 7, "st")),
            guard(that(wait is Ok || wait->Err_0.0 == ECHILD, "wait"),
            guard(ok(restore, "restore"), passed()))))),
{
    check_ok(ign, "ign")?;
    check_ok(fork, "fork")?;
    if wait.is_ok() {
        check(wexitstatus(status) == 7, "st")?;
    }
    check(match wait { Ok(_) => true, Err(e) => e.0 == ECHILD }, "wait")?;
    check_ok(restore, "restore")?;
    Ok(())
}

/// The mask is set empty and restored.
pub fn sig_procmask_setmask_empty(set: Sys, restore: Sys) -> (r: TestResult)
    ensures
        r == guard(ok(set, "set"), guard(ok(restore, "restore"), passed())),
{
    check_ok(set, "set")?;
    check_ok(restore, "restore")?;
    Ok(())
}

/// The pending set is read.
pub fn sig_pending_initially_clear_soft(pending: Sys) -> (r: TestResult)
    ensures
        r == guard(ok(pending, "pending"), passed()),
{
    check_ok(pending, "pending")?;
    Ok(())
}

/// Signal 0 to the process group succeeds or fails with ESRCH or EPERM.
pub fn sig_kill_zero_process_group_soft(kill: Sys) -> (r: TestResult)
    ensures
        r ==
            guard(that(kill is Ok || kill->Err_0.0 == ESRCH || kill->Err_0.0 == EPERM, "kill pg"), passed()),
{
    check(match kill { Ok(_) => true, Err(e) => e.0 == ESRCH || e.0 == EPERM }, "kill pg")?;
    Ok(())
}

/// SIGUSR1 and SIGUSR2 are blocked together, unblocked, and the old mask
/// restored.
pub fn sig_block_two_signals(block: Sys, unblock: Sys, restore: Sys) -> (r: TestResult)
    ensures
        r == guard(ok(block, "block"), guard(ok(unblock, "unblock"),
            guard(ok(restore, "restore"), passed()))),
{
    check_ok(block, "block")?;
    check_ok(unblock, "unblock")?;
    check_ok(restore, "restore")?;
    Ok(())
}

/// Updating a signalfd's mask returns the same descriptor.
pub fn sig_signalfd_update_mask(
    block: Sys,
    sfd: SysVal,
    upd: SysVal,
    close: Sys,
    restore: Sys,
) -> (r: TestResult)
    ensures
        r == guard(ok(block, "block"), guard(ok(sfd, "sfd"), guard(ok(upd, "upd"),
            guard(that((upd->Ok_0) == (sfd->Ok_0), "same fd"), guard(ok(close, "close"),
            guard(ok(restore, "restore"), passed())))))),
{
    check_ok(block, "block")?;
    let a = check_ok(sfd, "sfd")?;
    let b = check_ok(upd, "upd")?;
    check(b == a, "same fd")?;
    check_ok(close, "close")?;
    check_ok(restore, "restore")?;
    Ok(())
}

/// SIGHUP is set to ignore and its old action restored.
pub fn sig_action_ign_hup(ign: Sys, restore: Sys) -> (r: TestResult)
    ensures
        r == guard(ok(ign, "ign"), guard(ok(restore, "restore"), passed())),
{
    check_ok(ign, "ign")?;
    check_ok(restore, "restore")?;
    Ok(())
}

/// Signal 0 reaches a sleeping child, SIGTERM ends it and it is reaped.
pub fn sig_child_kill_zero_alive(fork: Sys, alive: Sys, term: Sys, wait: Sys) -> (r: TestResult)
    ensures
        r == guard(ok(fork, "fork"), guard(ok(alive, "alive"), guard(ok(term, "term"),
            guard(ok(wait, "wait"), passed())))),
{
    check_ok(fork, "fork")?;
    check_ok(alive, "alive")?;
    check_ok(term, "term")?;
    check_ok(wait, "wait")?;
    Ok(())
}

/// SIGINT is set to ignore and its old action restored.
pub fn sig_rt_sigaction_int_ign(ign: Sys, restore: Sys) -> (r: TestResult)
    ensures
        r == guard(ok(ign, "ign"), guard(ok(restore, "restore"), passed())),
{
    check_ok(ign, "ign")?;
    check_ok(restore, "restore")?;
    Ok(())
}

/// The mask is read without changing it.
pub fn sig_procmask_query_only(query: Sys) -> (r: TestResult)
    ensures
        r == guard(ok(query, "query"), passed()),
{
    check_ok(query, "query")?;
    Ok(())
}

/// A pending SIGUSR1 is discarded once it is ignored and unblocked.
pub fn sig_pending_clear_after_ign(
    block: Sys,
    raise: Sys,
    ign: Sys,
    unblock: Sys,
    pending_call: Sys,
    pending: u64,
    dfl: Sys,
    restore: Sys,
) -> (r: TestResult)
    ensures
        r == guard(ok(block, "block"), guard(ok(raise, "raise"), guard(ok(ign, "ign"),
            guard(ok(unblock, "unblock"), guard(ok(pending_call, "pending"),
            guard(that(pending & spec_sigbit(SIGUSR1) == 0, "cleared"), guard(ok(dfl, "dfl"),
            guard(ok(restore, "restore"), passed())))))))),
{
    check_ok(block, "block")?;
    check_ok(raise, "raise")?;
    check_ok(ign, "ign")?;
    check_ok(unblock, "unblock")?;
    check_ok(pending_call, "pending")?;
    check(pending & sigbit(SIGUSR1) == 0, "cleared")?;
    check_ok(dfl, "dfl")?;
    check_ok(restore, "restore")?;
    Ok(())
}

/// With SIGTERM ignored, SIGTERM to this process is harmless.
pub fn sig_kill_self_term_with_ign(ign: Sys, kill: Sys, restore: Sys) -> (r: TestResult)
    ensures
        r == guard(ok(ign, "ign"), guard(ok(kill, "kill"), guard(ok(restore, "restore"), passed()))),
{
    check_ok(ign, "ign")?;
    check_ok(kill, "kill")?;
    check_ok(restore, "restore")?;
    Ok(())
}

/// `waitpid` for a child that exits with 42 returns its pid and code 42.
pub fn sig_wait_after_sigchld_default(fork: SysVal, wait: SysVal, status: i32) -> (r: TestResult)
    ensures
        r == guard(ok(fork, "fork"), guard(ok(wait, "wait"),
            guard(that((wait->Ok_0) == (fork->Ok_0), "pid"),
            guard(that(spec_exit_code(status) == 42, "st"), passed())))),
{
    let pid = check_ok(fork, "fork")?;
    let w = check_ok(wait, "wait")?;
    check(w == pid, "pid")?;
    check(wexitstatus(status) == 42, "st")?;
    Ok(())
}

} // verus!
