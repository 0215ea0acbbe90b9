//! POSIX interval timers: `timer_create`, `timer_settime`, `timer_gettime`
//! and `timer_delete`.

use vstd::prelude::*;
use crate::abi::Timespec;
use crate::plan::Act;
use crate::errno::{Errno, EACCES, EINVAL, ENOMEM, ENOSYS, EPERM};
use crate::harness::{
    Sys, TestResult, check, check_ok, fail, failure, guard, ok, only_if, passed, that,
};

verus! {

/// Errors under which the timer calls count as unsupported here.
pub open spec fn is_timer_soft(e: Errno) -> bool {
    e.0 == ENOSYS || e.0 == EPERM || e.0 == EACCES || e.0 == EINVAL || e.0 == ENOMEM
}

/// Whether a timer call's error means it is unsupported here.
pub fn soft(e: Errno) -> (r: bool)
    ensures
        r == is_timer_soft(e),
{
    e.0 == ENOSYS || e.0 == EPERM || e.0 == EACCES || e.0 == EINVAL || e.0 == ENOMEM
}

/// A timer call that must succeed, unless it is unsupported: the rest of
/// the test on success, a pass on an unsupported error, a failure named
/// `msg` on another error.
pub open spec fn soft_gate<T>(r: Result<T, Errno>, msg: &'static str, rest: TestResult) -> TestResult {
    match r {
        Ok(_) => rest,
        Err(e) => if is_timer_soft(e) { Ok(()) } else { Err(failure(msg)) },
    }
}

/// Whether a timer's remaining time is nonzero.
pub open spec fn armed(v: Timespec) -> bool {
    v.tv_sec > 0 || v.tv_nsec > 0
}

/// A `SIGEV_NONE` timer on the monotonic clock is created and deleted, or
/// creating it is unsupported.
pub fn timer_create_monotonic_sigev_none(create: Sys, delete: Sys) -> (r: TestResult)
    ensures
        r == guard(only_if(create is Ok, ok(delete, "delete")),
            guard(that(create is Ok || is_timer_soft(create->Err_0), "timer_create"), passed())),
{
    if create.is_ok() {
        check_ok(delete, "delete")?;
    }
    check(match create { Ok(_) => true, Err(e) => soft(e) }, "timer_create")?;
    Ok(())
}

/// A timer armed for 60 s shows as armed (`gettime`: its remaining time);
/// unsupported calls pass.
pub fn timer_settime_gettime_roundtrip(
    create: Sys,
    settime: Sys,
    gettime: Result<Timespec, Errno>,
    delete: Sys,
) -> (r: TestResult)
    ensures
        r == soft_gate(create, "create", soft_gate(settime, "settime", soft_gate(gettime, "gettime",
            guard(that(armed((gettime->Ok_0)), "armed"), guard(ok(delete, "delete"), passed()))))),
{
    match create { Ok(_) => {}, Err(e) => if soft(e) { return Ok(()) } else { return Err(fail("create")) } }
    match settime { Ok(_) => {}, Err(e) => if soft(e) { return Ok(()) } else { return Err(fail("settime")) } }
    let v = match gettime { Ok(v) => v, Err(e) => if soft(e) { return Ok(()) } else { return Err(fail("gettime")) } };
    check(v.tv_sec > 0 || v.tv_nsec > 0, "armed")?;
    check_ok(delete, "delete")?;
    Ok(())
}

/// The calls `timer_settime_gettime_roundtrip` makes besides its checks:
/// once the timer exists, a failing `timer_settime` or `timer_gettime`
/// (unsupported or not) deletes it before the test ends.
pub fn roundtrip_cleanup(create: Sys, settime: Sys, gettime: Result<Timespec, Errno>) -> (acts: Vec<Act>)
    ensures
        acts@ == (if create is Ok && (settime is Err || gettime is Err) { seq![Act::TimerDelete] } else {
            Seq::<Act>::empty()
        }),
{
    if create.is_ok() && (settime.is_err() || gettime.is_err()) {
        vec![Act::TimerDelete]
    } else {
        vec![]
    }
}

/// Rearming a 60 s timer for 5 s leaves at most 5 s, still armed; when
/// arming fails at all the test passes.
pub fn timer_rearm_updates_remaining(
    create: Sys,
    settime_long: Sys,
    rearm: Sys,
    gettime: Result<Timespec, Errno>,
    delete: Sys,
) -> (r: TestResult)
    ensures
        r == soft_gate(create, "create", (if settime_long is Err { Ok(()) } else {
            guard(ok(rearm, "rearm"), guard(ok(gettime, "gettime"),
            guard(that((gettime->Ok_0).tv_sec <= 5, "shortened"),
            guard(that(armed((gettime->Ok_0)), "still armed"),
            guard(ok(delete, "delete"), passed()))))) })),
{
    match create { Ok(_) => {}, Err(e) => if soft(e) { return Ok(()) } else { return Err(fail("create")) } }
    if settime_long.is_err() { return Ok(()); }
    check_ok(rearm, "rearm")?;
    let v = check_ok(gettime, "gettime")?;
    check(v.tv_sec <= 5, "shortened")?;
    check(v.tv_sec > 0 || v.tv_nsec > 0, "still armed")?;
    check_ok(delete, "delete")?;
    Ok(())
}

/// The calls `timer_rearm_updates_remaining` makes besides its checks:
/// once the timer exists, a failing 60 s `timer_settime` deletes it before
/// the test passes.
pub fn rearm_cleanup(create: Sys, settime_long: Sys) -> (acts: Vec<Act>)
    ensures
        acts@ == (if create is Ok && settime_long is Err { seq![Act::TimerDelete] } else {
            Seq::<Act>::empty()
        }),
{
    if create.is_ok() && settime_long.is_err() {
        vec![Act::TimerDelete]
    } else {
        vec![]
    }
}

/// Deleting a timer twice fails the second time with EINVAL, EPERM or an
/// unsupported error.
pub fn timer_delete_twice_soft(create: Sys, delete: Sys, again: Sys) -> (r: TestResult)
    ensures
        r == soft_gate(create, "create", guard(ok(delete, "delete"),
            guard(that(again is Err, "second delete ok"),
            guard(that(again->Err_0.0 == EINVAL || again->Err_0.0 == EPERM || is_timer_soft(again->Err_0), "second delete errno"), passed())))),
{
    match create { Ok(_) => {}, Err(e) => if soft(e) { return Ok(()) } else { return Err(fail("create")) } }
    check_ok(delete, "delete")?;
    check(again.is_err(), "second delete ok")?;
    check(match again { Err(e) => e.0 == EINVAL || e.0 == EPERM || soft(e), Ok(_) => true }, "second delete errno")?;
    Ok(())
}

} // verus!
