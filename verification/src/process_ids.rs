//! Process groups, sessions, and real, effective and saved ids.

use vstd::prelude::*;
use crate::errno::Errno;
use crate::harness::{Sys, SysVal, TestResult, check, check_ok, guard, ok, passed, that};
use crate::wait_status::{spec_exit_code, wexitstatus};

verus! {

/// Exit code of the child of `setsid_in_child`: 1 when `setsid` failed, 0
/// when the new session id is its pid, 2 otherwise.
pub fn setsid_in_child_exit_code(setsid: SysVal, pid: i64) -> (code: i32)
    ensures
        code == (match setsid { Err(_) => 1i32, Ok(s) => if s == pid { 0i32 } else { 2i32 } }),
{
    match setsid {
        Err(_) => 1,
        Ok(s) => if s == pid { 0 } else { 2 },
    }
}

/// Exit code of the child of `setpgid_self`: 0 when `setpgid(0, pid)`
/// succeeded and its group then reads as `pid`, 1 otherwise.
pub fn setpgid_child_exit_code(setpgid: Sys, getpgid: SysVal, pid: i64) -> (code: i32)
    ensures
        code == (if setpgid is Ok && getpgid == Ok::<i64, Errno>(pid) { 0i32 } else { 1i32 }),
{
    let same = match getpgid {
        Ok(g) => g == pid,
        Err(_) => false,
    };
    if setpgid.is_ok() && same { 0 } else { 1 }
}

/// Exit code of the child of `child_getpgid_parent_group`: 0 when its
/// group (-1 when unreadable) is the parent's, 1 otherwise.
pub fn child_pgid_exit_code(getpgid: SysVal, parent_pgid: i64) -> (code: i32)
    ensures
        code == (if (match getpgid { Ok(g) => g, Err(_) => -1i64 }) == parent_pgid { 0i32 } else { 1i32 }),
{
    let g = match getpgid {
        Ok(g) => g,
        Err(_) => -1,
    };
    if g == parent_pgid { 0 } else { 1 }
}

/// The process group read for pid 0 is positive.
pub fn getpgid_zero(pgid: SysVal) -> (r: TestResult)
    ensures
        r == guard(ok(pgid, "getpgid 0"), guard(that((pgid->Ok_0) > 0, "pgid"), passed())),
{
    let g = check_ok(pgid, "getpgid 0")?;
    check(g > 0, "pgid")?;
    Ok(())
}

/// The process group read by the process's id is positive.
pub fn getpgid_self(pgid: SysVal) -> (r: TestResult)
    ensures
        r == guard(ok(pgid, "getpgid self"), guard(that((pgid->Ok_0) > 0, "pgid"), passed())),
{
    let g = check_ok(pgid, "getpgid self")?;
    check(g > 0, "pgid")?;
    Ok(())
}

/// The group read for pid 0 and by the process's id agree.
pub fn getpgid_zero_equals_self(a: SysVal, b: SysVal) -> (r: TestResult)
    ensures
        r == guard(ok(a, "pgid 0"), guard(ok(b, "pgid pid"),
            guard(that((a->Ok_0) == (b->Ok_0), "match"), passed()))),
{
    let x = check_ok(a, "pgid 0")?;
    let y = check_ok(b, "pgid pid")?;
    check(x == y, "match")?;
    Ok(())
}

/// The session read for pid 0 is positive.
pub fn getsid_zero(sid: SysVal) -> (r: TestResult)
    ensures
        r == guard(ok(sid, "getsid 0"), guard(that((sid->Ok_0) > 0, "sid"), passed())),
{
    let s = check_ok(sid, "getsid 0")?;
    check(s > 0, "sid")?;
    Ok(())
}

/// The session read by the process's id is positive.
pub fn getsid_self(sid: SysVal) -> (r: TestResult)
    ensures
        r == guard(ok(sid, "getsid self"), guard(that((sid->Ok_0) > 0, "sid"), passed())),
{
    let s = check_ok(sid, "getsid self")?;
    check(s > 0, "sid")?;
    Ok(())
}

/// The real, effective and saved uids agree with `getuid` and `geteuid` and
/// with each other.
pub fn getresuid_matches(
    res: Result<(u32, u32, u32), Errno>,
    uid: u32,
    euid: u32,
) -> (r: TestResult)
    ensures
        r == guard(ok(res, "getresuid"), guard(that((res->Ok_0).0 == uid, "ruid"),
            guard(that((res->Ok_0).1 == euid, "euid"),
            guard(that((res->Ok_0).0 == (res->Ok_0).1, "real==eff"),
            guard(that((res->Ok_0).1 == (res->Ok_0).2, "eff==saved"), passed()))))),
{
    let ids = check_ok(res, "getresuid")?;
    check(ids.0 == uid, "ruid")?;
    check(ids.1 == euid, "euid")?;
    check(ids.0 == ids.1, "real==eff")?;
    check(ids.1 == ids.2, "eff==saved")?;
    Ok(())
}

/// The real, effective and saved gids agree with `getgid` and `getegid` and
/// with each other.
pub fn getresgid_matches(
    res: Result<(u32, u32, u32), Errno>,
    gid: u32,
    egid: u32,
) -> (r: TestResult)
    ensures
        r == guard(ok(res, "getresgid"), guard(that((res->Ok_0).0 == gid, "rgid"),
            guard(that((res->Ok_0).1 == egid, "egid"),
            guard(that((res->Ok_0).0 == (res->Ok_0).1, "real==eff"),
            guard(that((res->Ok_0).1 == (res->Ok_0).2, "eff==saved"), passed()))))),
{
    let ids = check_ok(res, "getresgid")?;
    check(ids.0 == gid, "rgid")?;
    check(ids.1 == egid, "egid")?;
    check(ids.0 == ids.1, "real==eff")?;
    check(ids.1 == ids.2, "eff==saved")?;
    Ok(())
}

/// A child starts its own session (it exits 0, see
/// `setsid_in_child_exit_code`).
pub fn setsid_in_child(fork: Sys, wait: Sys, status: i32) -> (r: TestResult)
    ensures
        r == guard(ok(fork, "fork"), guard(ok(wait, "wait4"),
            guard(that(spec_exit_code(status) == 0, "setsid child"), passed()))),
{
    check_ok(fork, "fork")?;
    check_ok(wait, "wait4")?;
    check(wexitstatus(status) == 0, "setsid child")?;
    Ok(())
}

/// A child makes itself a group leader (it exits 0, see
/// `setpgid_child_exit_code`).
pub fn setpgid_self(fork: Sys, wait: Sys, status: i32) -> (r: TestResult)
    ensures
        r == guard(ok(fork, "fork"), guard(ok(wait, "wait4"),
            guard(that(spec_exit_code(status) == 0, "setpgid"), passed()))),
{
    check_ok(fork, "fork")?;
    check_ok(wait, "wait4")?;
    check(wexitstatus(status) == 0, "setpgid")?;
    Ok(())
}

/// The session read for pid 0 and by the process's id agree.
pub fn getsid_zero_equals_self(a: SysVal, b: SysVal) -> (r: TestResult)
    ensures
        r == guard(ok(a, "sid 0"), guard(ok(b, "sid pid"),
            guard(that((a->Ok_0) == (b->Ok_0), "match"), passed()))),
{
    let x = check_ok(a, "sid 0")?;
    let y = check_ok(b, "sid pid")?;
    check(x == y, "match")?;
    Ok(())
}

/// A child is in its parent's group (it exits 0, see
/// `child_pgid_exit_code`).
pub fn child_getpgid_parent_group(
    parent: SysVal,
    fork: Sys,
    wait: Sys,
    status: i32,
) -> (r: TestResult)
    ensures
        r == guard(ok(parent, "parent pgid"), guard(ok(fork, "fork"), guard(ok(wait, "wait4"),
            guard(that(spec_exit_code(status) == 0, "same pgid"), passed())))),
{
    let p = check_ok(parent, "parent pgid")?;
    check_ok(fork, "fork")?;
    check_ok(wait, "wait4")?;
    check(wexitstatus(status) == 0, "same pgid")?;
    Ok(())
}

/// The real or effective uid is positive.
pub fn getresuid_nonzero(res: Result<(u32, u32, u32), Errno>) -> (r: TestResult)
    ensures
        r == guard(ok(res, "getresuid"),
            guard(that((res->Ok_0).0 > 0 || (res->Ok_0).1 > 0, "uid"), passed())),
{
    let ids = check_ok(res, "getresuid")?;
    check(ids.0 > 0 || ids.1 > 0, "uid")?;
    Ok(())
}

/// The real or effective gid is positive.
pub fn getresgid_nonzero(res: Result<(u32, u32, u32), Errno>) -> (r: TestResult)
    ensures
        r == guard(ok(res, "getresgid"),
            guard(that((res->Ok_0).0 > 0 || (res->Ok_0).1 > 0, "gid"), passed())),
{
    let ids = check_ok(res, "getresgid")?;
    check(ids.0 > 0 || ids.1 > 0, "gid")?;
    Ok(())
}

} // verus!
