//! Processes in depth: waiting, groups and sessions, the dumpable and
//! no-new-privileges flags, resource limits and usage.

use vstd::prelude::*;
use vstd::string::StringSliceAdditionalSpecFns;
use crate::abi::Rlimit;
use crate::errno::{Errno, EAGAIN, ECHILD, EINVAL, ENOSYS, EPERM, ESRCH};
use crate::harness::{
    AssertFail, Round, Sys, SysVal, TestResult, all_ok, all_passed, check, check_ok, fail, failure,
    first_failure, guard, nested, ok, only_if, passed, spec_all_ok, that,
};
use crate::spawn_ipc::{prefix_eq, starts_with};
use crate::wait_status::{spec_exit_code, spec_term_sig, wexitstatus, wifexited};

verus! {

/// What the checks read of `getrusage`.
#[derive(Clone, Copy, Debug, PartialEq, Eq, Structural)]
pub struct Usage {
    pub utime_sec: i64,
    pub stime_sec: i64,
    pub maxrss: i64,
    pub minflt: i64,
    pub nvcsw: i64,
    pub nivcsw: i64,
}

/// The exit codes of the children of `wait4_exit_codes_matrix`, in order.
pub fn matrix_code(i: usize) -> (code: i32)
    requires
        i < 5,
    ensures
        code == seq![0i32, 1, 2, 127, 255][i as int],
{
    if i == 0 { 0 } else if i == 1 { 1 } else if i == 2 { 2 } else if i == 3 { 127 } else { 255 }
}

/// The step of the `WNOHANG` loop of `wait4_wnohang_loop` after its `i`th of
/// 2000 calls: yield and call again while the child runs; reaped once the
/// child's pid comes back (another pid fails "pid"); not reaped on `ECHILD`
/// or once the calls run out; "wait4" on another error.
pub fn wnohang_reap_step(pid: i64, i: u32, wait: SysVal) -> (r: Round<bool>)
    ensures
        r == (match wait {
            Ok(p) => if p == 0 { if i + 1 >= 2000 { Round::Done(Ok(false)) } else { Round::<bool>::Sleep } } else if p
                == pid { Round::Done(Ok(true)) } else { Round::Done(Err(failure("pid"))) },
            Err(e) => if e.0 == ECHILD { Round::Done(Ok(false)) } else { Round::Done(Err(failure("wait4"))) },
        }),
{
    match wait {
        Ok(p) => if p == 0 {
            if i >= 1999 { Round::Done(Ok(false)) } else { Round::Sleep }
        } else if p == pid {
            Round::Done(Ok(true))
        } else {
            Round::Done(Err(fail("pid")))
        },
        Err(e) => if e.0 == ECHILD { Round::Done(Ok(false)) } else { Round::Done(Err(fail("wait4"))) },
    }
}

/// Exit code of the child of `getpgid_child`: 1 when its group does not
/// read, 0 when it is the parent's, 2 otherwise.
pub fn pgid_child_exit_code(getpgid: SysVal, parent_pg: i64) -> (code: i32)
    ensures
        code == (match getpgid { Err(_) => 1i32, Ok(g) => if g == parent_pg { 0i32 } else { 2i32 } }),
{
    match getpgid {
        Err(_) => 1,
        Ok(g) => if g == parent_pg { 0 } else { 2 },
    }
}

/// Exit code of the child of `setpgid_child_new_group`: 1 when `setpgid(0,
/// me)` failed, 0 when its group then reads as `me`, 2 otherwise.
pub fn new_group_child_exit_code(setpgid: Sys, getpgid: SysVal, me: i64) -> (code: i32)
    ensures
        code == (if setpgid is Err { 1i32 } else if getpgid == Ok::<i64, Errno>(me) { 0i32 } else { 2i32 }),
{
    if setpgid.is_err() {
        return 1;
    }
    match getpgid {
        Ok(g) => if g == me { 0 } else { 2 },
        Err(_) => 2,
    }
}

/// Exit code of the child of `getsid_child_inherits`: 0 when its session
/// is the parent's, 1 otherwise.
pub fn sid_child_exit_code(getsid: SysVal, sid: i64) -> (code: i32)
    ensures
        code == (if getsid == Ok::<i64, Errno>(sid) { 0i32 } else { 1i32 }),
{
    match getsid {
        Ok(s) => if s == sid { 0 } else { 1 },
        Err(_) => 1,
    }
}

/// Exit code of the child of `prctl_dumpable_in_child`: 0 when clearing the
/// dumpable flag succeeded and it then reads 0, 1 otherwise.
pub fn dumpable_child_exit_code(set: Sys, get: SysVal) -> (code: i32)
    ensures
        code == (if set is Ok && get == Ok::<i64, Errno>(0) { 0i32 } else { 1i32 }),
{
    let zero = match get {
        Ok(v) => v == 0,
        Err(_) => false,
    };
    if set.is_ok() && zero { 0 } else { 1 }
}

/// Exit code of the child of `fork_getpid_differs`: 0 when its pid is not
/// the parent's, 1 otherwise.
pub fn pid_differs_exit_code(pid: i64, parent: i64) -> (code: i32)
    ensures
        code == (if pid != parent { 0i32 } else { 1i32 }),
{
    if pid != parent { 0 } else { 1 }
}

/// Whether `rlimit_nofile_lower_soft` can lower the descriptor limit: the
/// soft limit is above 32 and not above the hard one.
pub open spec fn nofile_lowerable(old: Rlimit) -> bool {
    !(old.rlim_cur <= 32 || old.rlim_cur > old.rlim_max)
}

/// The descriptor limit `rlimit_nofile_lower_soft` sets: one below the
/// soft limit, the hard limit kept.
pub fn lowered_nofile(old: Rlimit) -> (new: Rlimit)
    requires
        old.rlim_cur > 0,
    ensures
        new == (Rlimit { rlim_cur: (old.rlim_cur - 1) as u64, rlim_max: old.rlim_max }),
{
    Rlimit { rlim_cur: old.rlim_cur - 1, rlim_max: old.rlim_max }
}

/// Whether `rlimit_stack_lower_soft` can lower the stack limit: the soft
/// limit is at least 1 MiB and not above the hard one.
pub open spec fn stack_lowerable(old: Rlimit) -> bool {
    !(old.rlim_cur < 1024 * 1024 || old.rlim_cur > old.rlim_max)
}

/// The stack limit `rlimit_stack_lower_soft` sets: half the soft limit,
/// the hard limit kept.
pub fn halved_stack(old: Rlimit) -> (new: Rlimit)
    ensures
        new == (Rlimit { rlim_cur: old.rlim_cur / 2, rlim_max: old.rlim_max }),
{
    Rlimit { rlim_cur: old.rlim_cur / 2, rlim_max: old.rlim_max }
}

/// One child of `wait4_exit_codes_matrix`, which exits with `code`.
pub fn exit_code_round(fork: Sys, wait: Sys, status: i32, code: i32) -> (r: TestResult)
    ensures
        r == guard(ok(fork, "fork"), guard(ok(wait, "wait"),
            guard(that(spec_term_sig(status) == 0, "exited"),
            guard(that(spec_exit_code(status) == code, "code"), passed())))),
{
    check_ok(fork, "fork")?;
    check_ok(wait, "wait")?;
    check(wifexited(status), "exited")?;
    check(wexitstatus(status) == code, "code")?;
    Ok(())
}

/// Children exiting with 0, 1, 2, 127 and 255 (`matrix_code`) are each
/// reported so (`exit_code_round`).
pub fn wait4_exit_codes_matrix(rounds: &[TestResult]) -> (r: TestResult)
    ensures
        r == guard(nested(first_failure(rounds@)), passed()),
{
    all_passed(rounds)?;
    Ok(())
}

/// `waitpid(-1)` reaps the child, which exited with 3.
pub fn waitpid_any_child(fork: SysVal, wait: SysVal, status: i32) -> (r: TestResult)
    ensures
        r == guard(ok(fork, "fork"), guard(ok(wait, "wait"),
            guard(that((wait->Ok_0) == (fork->Ok_0), "pid"),
            guard(that(spec_exit_code(status) == 3, "st"), passed())))),
{
    let pid = check_ok(fork, "fork")?;
    let got = check_ok(wait, "wait")?;
    check(got == pid, "pid")?;
    check(wexitstatus(status) == 3, "st")?;
    Ok(())
}

/// Polling with `WNOHANG` (`reaped`, see `wnohang_reap_step`) reaps the
/// child.
pub fn wait4_wnohang_loop(fork: Sys, reaped: Result<bool, AssertFail>) -> (r: TestResult)
    ensures
        r == guard(ok(fork, "fork"), guard(nested(reaped),
            guard(that(reaped->Ok_0, "reaped"), passed()))),
{
    check_ok(fork, "fork")?;
    check(reaped?, "reaped")?;
    Ok(())
}

/// `waitpid(1, WNOHANG)` returns 0 or fails with ECHILD, EPERM or ESRCH.
pub fn waitpid_wnohang_echild_soft(wait: SysVal) -> (r: TestResult)
    ensures
        r == guard(that(wait == Ok::<i64, Errno>(0) || (wait is Err && (wait->Err_0.0 == ECHILD
            || wait->Err_0.0 == EPERM || wait->Err_0.0 == ESRCH)), "waitpid soft"), passed()),
{
    check(match wait { Ok(p) => p == 0, Err(e) => e.0 == ECHILD || e.0 == EPERM || e.0 == ESRCH }, "waitpid soft")?;
    Ok(())
}

/// `waitid(P_PID, WEXITED)` reaps the child.
pub fn waitid_p_pid_exited(fork: Sys, wait: Sys) -> (r: TestResult)
    ensures
        r == guard(ok(fork, "fork"), guard(ok(wait, "waitid"), passed())),
{
    check_ok(fork, "fork")?;
    check_ok(wait, "waitid")?;
    Ok(())
}

/// `waitid(P_ALL, WEXITED)` reaps the child.
pub fn waitid_p_all_exited(fork: Sys, wait: Sys) -> (r: TestResult)
    ensures
        r == guard(ok(fork, "fork"), guard(ok(wait, "waitid"), passed())),
{
    check_ok(fork, "fork")?;
    check_ok(wait, "waitid")?;
    Ok(())
}

/// `WNOHANG` before the child exits succeeds or fails with EAGAIN or ECHILD.
pub fn waitid_wnohang(fork: Sys, wait: Sys) -> (r: TestResult)
    ensures
        r == guard(ok(fork, "fork"),
            guard(that(wait is Ok || wait->Err_0.0 == EAGAIN || wait->Err_0.0 == ECHILD, "waitid nohang"), passed())),
{
    check_ok(fork, "fork")?;
    check(match wait { Ok(_) => true, Err(e) => e.0 == EAGAIN || e.0 == ECHILD }, "waitid nohang")?;
    Ok(())
}

/// `WNOWAIT` leaves the child to reap, or is refused with EINVAL or ENOSYS.
pub fn waitid_wnowait_soft(fork: Sys, wait: Sys, reap: Sys) -> (r: TestResult)
    ensures
        r == guard(ok(fork, "fork"), guard(only_if(wait is Ok, ok(reap, "reap")),
            guard(that(wait is Ok || wait->Err_0.0 == EINVAL || wait->Err_0.0 == ENOSYS, "wnowait"), passed()))),
{
    check_ok(fork, "fork")?;
    if wait.is_ok() {
        check_ok(reap, "reap")?;
    }
    check(match wait { Ok(_) => true, Err(e) => e.0 == EINVAL || e.0 == ENOSYS }, "wnowait")?;
    Ok(())
}

/// `WUNTRACED` reaps a child that exited with 6.
pub fn wait4_wuntraced_exit(fork: Sys, wait: Sys, status: i32) -> (r: TestResult)
    ensures
        r == guard(ok(fork, "fork"), guard(ok(wait, "wait"),
            guard(that(spec_exit_code(status) == 6, "st"), passed()))),
{
    check_ok(fork, "fork")?;
    check_ok(wait, "wait")?;
    check(wexitstatus(status) == 6, "st")?;
    Ok(())
}

/// A child is in its parent's group (it exits 0, see
/// `pgid_child_exit_code`).
pub fn getpgid_child(parent: SysVal, fork: Sys, wait: Sys, status: i32) -> (r: TestResult)
    ensures
        r == guard(ok(parent, "parent"), guard(ok(fork, "fork"), guard(ok(wait, "wait"),
            guard(that(spec_exit_code(status) == 0, "pgid"), passed())))),
{
    let p = check_ok(parent, "parent")?;
    check_ok(fork, "fork")?;
    check_ok(wait, "wait")?;
    check(wexitstatus(status) == 0, "pgid")?;
    Ok(())
}

/// A child makes its own group (it exits 0, see
/// `new_group_child_exit_code`).
pub fn setpgid_child_new_group(fork: Sys, wait: Sys, status: i32) -> (r: TestResult)
    ensures
        r == guard(ok(fork, "fork"), guard(ok(wait, "wait"),
            guard(that(spec_exit_code(status) == 0, "setpgid"), passed()))),
{
    check_ok(fork, "fork")?;
    check_ok(wait, "wait")?;
    check(wexitstatus(status) == 0, "setpgid")?;
    Ok(())
}

/// A child is in its parent's session (it exits 0, see
/// `sid_child_exit_code`).
pub fn getsid_child_inherits(sid: SysVal, fork: Sys, wait: Sys, status: i32) -> (r: TestResult)
    ensures
        r == guard(ok(sid, "sid"), guard(ok(fork, "fork"), guard(ok(wait, "wait"),
            guard(that(spec_exit_code(status) == 0, "sid"), passed())))),
{
    let s = check_ok(sid, "sid")?;
    check_ok(fork, "fork")?;
    check_ok(wait, "wait")?;
    check(wexitstatus(status) == 0, "sid")?;
    Ok(())
}

/// `setsid` succeeds or fails with EPERM.
pub fn setsid_fails_if_leader_soft(setsid: SysVal) -> (r: TestResult)
    ensures
        r == guard(that(setsid is Ok || setsid->Err_0.0 == EPERM, "setsid"), passed()),
{
    check(match setsid { Ok(_) => true, Err(e) => e.0 == EPERM }, "setsid")?;
    Ok(())
}

/// The group of an unused pid reads or fails with ESRCH or EPERM.
pub fn getpgid_bad_pid(get: SysVal) -> (r: TestResult)
    ensures
        r ==
            guard(that(get is Ok || get->Err_0.0 == ESRCH || get->Err_0.0 == EPERM, "getpgid bad"), passed()),
{
    check(match get { Ok(_) => true, Err(e) => e.0 == ESRCH || e.0 == EPERM }, "getpgid bad")?;
    Ok(())
}

/// The session of an unused pid reads or fails with ESRCH or EPERM.
pub fn getsid_bad_pid(get: SysVal) -> (r: TestResult)
    ensures
        r ==
            guard(that(get is Ok || get->Err_0.0 == ESRCH || get->Err_0.0 == EPERM, "getsid bad"), passed()),
{
    check(match get { Ok(_) => true, Err(e) => e.0 == ESRCH || e.0 == EPERM }, "getsid bad")?;
    Ok(())
}

/// The dumpable flag is 0, 1 or 2.
pub fn prctl_dumpable_get(get: SysVal) -> (r: TestResult)
    ensures
        r == guard(ok(get, "get"),
            guard(that((get->Ok_0) == 0 || (get->Ok_0) == 1 || (get->Ok_0) == 2, "range"), passed())),
{
    let d = check_ok(get, "get")?;
    check(d == 0 || d == 1 || d == 2, "range")?;
    Ok(())
}

/// The dumpable flag set to 0 reads 0 and set to 1 reads 1.
pub fn prctl_dumpable_set_roundtrip(
    old: SysVal,
    set0: Sys,
    get0: SysVal,
    set1: Sys,
    get1: SysVal,
) -> (r: TestResult)
    ensures
        r == guard(ok(old, "old"), guard(ok(set0, "set0"), guard(ok(get0, "get0"),
            guard(that((get0->Ok_0) == 0, "0"), guard(ok(set1, "set1"), guard(ok(get1, "get1"),
            guard(that((get1->Ok_0) == 1, "1"), passed()))))))),
{
    let o = check_ok(old, "old")?;
    check_ok(set0, "set0")?;
    let v0 = check_ok(get0, "get0")?;
    check(v0 == 0, "0")?;
    check_ok(set1, "set1")?;
    let v1 = check_ok(get1, "get1")?;
    check(v1 == 1, "1")?;
    Ok(())
}

/// The no-new-privileges flag is 0 or 1.
pub fn prctl_no_new_privs_get(get: SysVal) -> (r: TestResult)
    ensures
        r == guard(ok(get, "get"),
            guard(that((get->Ok_0) == 0 || (get->Ok_0) == 1, "range"), passed())),
{
    let v = check_ok(get, "get")?;
    check(v == 0 || v == 1, "range")?;
    Ok(())
}

/// The no-new-privileges flag set reads 1.
pub fn prctl_no_new_privs_set(set: Sys, get: SysVal) -> (r: TestResult)
    ensures
        r == guard(ok(set, "set"), guard(ok(get, "get"),
            guard(that((get->Ok_0) == 1, "nnp"), passed()))),
{
    check_ok(set, "set")?;
    let v = check_ok(get, "get")?;
    check(v == 1, "nnp")?;
    Ok(())
}

/// The name "pd" set reads back.
pub fn prctl_name_depth_short(set: Sys, get: Sys, buf: &[u8]) -> (r: TestResult)
    ensures
        r == guard(ok(set, "set"), guard(ok(get, "get"),
            guard(that(starts_with(buf@, "pd".spec_bytes()), "name"), passed()))),
{
    check_ok(set, "set")?;
    check_ok(get, "get")?;
    check(prefix_eq(buf, "pd".as_bytes()), "name")?;
    Ok(())
}

/// Lowering the descriptor soft limit by one (`lowered_nofile`) reports the
/// old limit, reads back lowered, and restores; when the limit cannot be
/// lowered (`nofile_lowerable`) the test passes.
pub fn rlimit_nofile_lower_soft(
    get: Result<Rlimit, Errno>,
    set: Result<Rlimit, Errno>,
    get2: Result<Rlimit, Errno>,
    restore: Sys,
) -> (r: TestResult)
    ensures
        r == guard(ok(get, "get"), (if !nofile_lowerable((get->Ok_0)) { Ok(()) } else {
            guard(ok(set, "set"), guard(that((set->Ok_0).rlim_cur == (get->Ok_0).rlim_cur, "prev"),
            guard(ok(get2, "get2"),
            guard(that((get2->Ok_0).rlim_cur == (get->Ok_0).rlim_cur - 1, "cur"),
            guard(ok(restore, "restore"), passed()))))) })),
{
    let old = check_ok(get, "get")?;
    if old.rlim_cur <= 32 || old.rlim_cur > old.rlim_max { return Ok(()); }
    let prev = check_ok(set, "set")?;
    check(prev.rlim_cur == old.rlim_cur, "prev")?;
    let got = check_ok(get2, "get2")?;
    check(got.rlim_cur == old.rlim_cur - 1, "cur")?;
    check_ok(restore, "restore")?;
    Ok(())
}

/// The stack soft limit is positive.
pub fn rlimit_stack_get(get: Result<Rlimit, Errno>) -> (r: TestResult)
    ensures
        r == guard(ok(get, "get"), guard(that((get->Ok_0).rlim_cur > 0, "stack"), passed())),
{
    let lim = check_ok(get, "get")?;
    check(lim.rlim_cur > 0, "stack")?;
    Ok(())
}

/// The address-space hard limit is positive.
pub fn rlimit_as_get(get: Result<Rlimit, Errno>) -> (r: TestResult)
    ensures
        r == guard(ok(get, "get"), guard(that((get->Ok_0).rlim_max > 0, "as"), passed())),
{
    let lim = check_ok(get, "get")?;
    check(lim.rlim_max > 0, "as")?;
    Ok(())
}

/// Halving the stack soft limit (`halved_stack`) succeeds or is refused with
/// EPERM or EINVAL; when it cannot be lowered (`stack_lowerable`) the test
/// passes.
pub fn rlimit_stack_lower_soft(get: Result<Rlimit, Errno>, set: Sys) -> (r: TestResult)
    ensures
        r == guard(ok(get, "get"), (if !stack_lowerable((get->Ok_0)) { Ok(()) } else {
            guard(that(set is Ok || set->Err_0.0 == EPERM || set->Err_0.0 == EINVAL, "stack set"), passed()) })),
{
    let old = check_ok(get, "get")?;
    if old.rlim_cur < 1024 * 1024 || old.rlim_cur > old.rlim_max { return Ok(()); }
    check(match set { Ok(_) => true, Err(e) => e.0 == EPERM || e.0 == EINVAL }, "stack set")?;
    Ok(())
}

/// The process's user and system seconds are not negative.
pub fn getrusage_self_basic(usage: Result<Usage, Errno>) -> (r: TestResult)
    ensures
        r == guard(ok(usage, "rusage"), guard(that((usage->Ok_0).utime_sec >= 0, "utime"),
            guard(that((usage->Ok_0).stime_sec >= 0, "stime"), passed()))),
{
    let ru = check_ok(usage, "rusage")?;
    check(ru.utime_sec >= 0, "utime")?;
    check(ru.stime_sec >= 0, "stime")?;
    Ok(())
}

/// After reaping a child that spun briefly, its usage is not negative.
pub fn getrusage_children_after_wait(
    fork: Sys,
    wait: Sys,
    usage: Result<Usage, Errno>,
) -> (r: TestResult)
    ensures
        r == guard(ok(fork, "fork"), guard(ok(wait, "wait"), guard(ok(usage, "children"),
            guard(that((usage->Ok_0).utime_sec >= 0, "cutime"),
            guard(that((usage->Ok_0).maxrss >= 0, "maxrss"), passed()))))),
{
    check_ok(fork, "fork")?;
    check_ok(wait, "wait")?;
    let ru = check_ok(usage, "children")?;
    check(ru.utime_sec >= 0, "cutime")?;
    check(ru.maxrss >= 0, "maxrss")?;
    Ok(())
}

/// The minor fault count is not negative.
pub fn getrusage_self_minflt(usage: Result<Usage, Errno>) -> (r: TestResult)
    ensures
        r == guard(ok(usage, "rusage"), guard(that((usage->Ok_0).minflt >= 0, "minflt"), passed())),
{
    let ru = check_ok(usage, "rusage")?;
    check(ru.minflt >= 0, "minflt")?;
    Ok(())
}

/// After reaping a child, its voluntary switch count is not negative.
pub fn fork_wait4_rusage_filled(
    fork: Sys,
    wait: Sys,
    usage: Result<Usage, Errno>,
) -> (r: TestResult)
    ensures
        r == guard(ok(fork, "fork"), guard(ok(wait, "wait"), guard(ok(usage, "ru"),
            guard(that((usage->Ok_0).nvcsw >= 0, "nvcsw"), passed())))),
{
    check_ok(fork, "fork")?;
    check_ok(wait, "wait")?;
    let ru = check_ok(usage, "ru")?;
    check(ru.nvcsw >= 0, "nvcsw")?;
    Ok(())
}

/// One child of `wait_many_children` is reaped, having exited.
pub fn child_reaped_round(wait: Sys, status: i32) -> (r: TestResult)
    ensures
        r == guard(ok(wait, "wait"), guard(that(spec_term_sig(status) == 0, "exited"), passed())),
{
    check_ok(wait, "wait")?;
    check(wifexited(status), "exited")?;
    Ok(())
}

/// Eight children fork and are each reaped (`child_reaped_round`).
pub fn wait_many_children(forks: &[Sys], rounds: &[TestResult]) -> (r: TestResult)
    ensures
        r == guard(nested(spec_all_ok(forks@, "fork")),
            guard(nested(first_failure(rounds@)), passed())),
{
    all_ok(forks, "fork")?;
    all_passed(rounds)?;
    Ok(())
}

/// The second child is reaped by pid before the first, each with its code.
pub fn waitpid_specific_amid_siblings(
    a: SysVal,
    b: SysVal,
    wait_b: SysVal,
    status_b: i32,
    wait_a: SysVal,
    status_a: i32,
) -> (r: TestResult)
    ensures
        r == guard(ok(a, "a"), guard(ok(b, "b"), guard(ok(wait_b, "wait b"),
            guard(that((wait_b->Ok_0) == (b->Ok_0), "b"),
            guard(that(spec_exit_code(status_b) == 2, "st b"), guard(ok(wait_a, "wait a"),
            guard(that((wait_a->Ok_0) == (a->Ok_0), "a"),
            guard(that(spec_exit_code(status_a) == 1, "st a"), passed())))))))),
{
    let pa = check_ok(a, "a")?;
    let pb = check_ok(b, "b")?;
    let gb = check_ok(wait_b, "wait b")?;
    check(gb == pb, "b")?;
    check(wexitstatus(status_b) == 2, "st b")?;
    let ga = check_ok(wait_a, "wait a")?;
    check(ga == pa, "a")?;
    check(wexitstatus(status_a) == 1, "st a")?;
    Ok(())
}

/// `setpgid` of an unused pid succeeds or fails with ESRCH, EPERM or EINVAL.
pub fn setpgid_bad_pid(set: Sys) -> (r: TestResult)
    ensures
        r ==
            guard(that(set is Ok || set->Err_0.0 == ESRCH || set->Err_0.0 == EPERM || set->Err_0.0 == EINVAL, "setpgid bad"), passed()),
{
    check(match set { Ok(_) => true, Err(e) => e.0 == ESRCH || e.0 == EPERM || e.0 == EINVAL }, "setpgid bad")?;
    Ok(())
}

/// A child clears its dumpable flag and reads it back (it exits 0, see
/// `dumpable_child_exit_code`).
pub fn prctl_dumpable_in_child(fork: Sys, wait: Sys, status: i32) -> (r: TestResult)
    ensures
        r == guard(ok(fork, "fork"), guard(ok(wait, "wait"),
            guard(that(spec_exit_code(status) == 0, "child"), passed()))),
{
    check_ok(fork, "fork")?;
    check_ok(wait, "wait")?;
    check(wexitstatus(status) == 0, "child")?;
    Ok(())
}

/// The descriptor soft limit does not exceed the hard one.
pub fn rlimit_nofile_cur_le_max(get: Result<Rlimit, Errno>) -> (r: TestResult)
    ensures
        r == guard(ok(get, "get"),
            guard(that((get->Ok_0).rlim_cur <= (get->Ok_0).rlim_max, "cur<=max"), passed())),
{
    let lim = check_ok(get, "get")?;
    check(lim.rlim_cur <= lim.rlim_max, "cur<=max")?;
    Ok(())
}

/// A second `waitid` of a reaped child succeeds or fails with ECHILD or
/// EAGAIN.
pub fn waitid_then_echild(fork: Sys, wait: Sys, again: Sys) -> (r: TestResult)
    ensures
        r == guard(ok(fork, "fork"), guard(ok(wait, "waitid"),
            guard(that(again is Ok || again->Err_0.0 == ECHILD || again->Err_0.0 == EAGAIN, "second waitid"), passed()))),
{
    check_ok(fork, "fork")?;
    check_ok(wait, "waitid")?;
    check(match again { Ok(_) => true, Err(e) => e.0 == ECHILD || e.0 == EAGAIN }, "second waitid")?;
    Ok(())
}

/// The children's fault and switch counts are not negative.
pub fn getrusage_children_nonneg_fields(usage: Result<Usage, Errno>) -> (r: TestResult)
    ensures
        r == guard(ok(usage, "ru"), guard(that((usage->Ok_0).minflt >= 0, "minflt"),
            guard(that((usage->Ok_0).nvcsw >= 0, "nvcsw"),
            guard(that((usage->Ok_0).nivcsw >= 0, "nivcsw"), passed())))),
{
    let ru = check_ok(usage, "ru")?;
    check(ru.minflt >= 0, "minflt")?;
    check(ru.nvcsw >= 0, "nvcsw")?;
    check(ru.nivcsw >= 0, "nivcsw")?;
    Ok(())
}

/// A child's pid is not its parent's (it exits 0, see
/// `pid_differs_exit_code`).
pub fn fork_getpid_differs(fork: Sys, wait: Sys, status: i32) -> (r: TestResult)
    ensures
        r == guard(ok(fork, "fork"), guard(ok(wait, "wait"),
            guard(that(spec_exit_code(status) == 0, "diff"), passed()))),
{
    check_ok(fork, "fork")?;
    check_ok(wait, "wait")?;
    check(wexitstatus(status) == 0, "diff")?;
    Ok(())
}

/// `wait4` with no options reaps the child by its pid.
pub fn wait4_options_zero(fork: SysVal, wait: SysVal) -> (r: TestResult)
    ensures
        r == guard(ok(fork, "fork"), guard(ok(wait, "wait"),
            guard(that((wait->Ok_0) == (fork->Ok_0), "pid"), passed()))),
{
    let pid = check_ok(fork, "fork")?;
    let got = check_ok(wait, "wait")?;
    check(got == pid, "pid")?;
    Ok(())
}

} // verus!
