//! `timerfd_create`, `timerfd_settime` and `timerfd_gettime`.

use vstd::prelude::*;
use crate::abi::{FD_CLOEXEC, Timespec};
use crate::bytes::{le_u64, u64_from_ne_bytes};
use crate::errno::Errno;
use crate::harness::{Sys, SysVal, TestResult, check, check_ok, guard, ok, passed, that};

verus! {

/// A timer setting: the reload interval and the time left.
#[derive(Clone, Copy, Debug, PartialEq, Eq, Structural)]
pub struct Itimerspec {
    pub interval: Timespec,
    pub value: Timespec,
}

/// A monotonic timerfd is created.
pub fn timerfd_create_monotonic(create: SysVal, close: Sys) -> (r: TestResult)
    ensures
        r == guard(ok(create, "create"), guard(that((create->Ok_0) >= 0, "bad fd"),
            guard(ok(close, "close"), passed()))),
{
    let fd = check_ok(create, "create")?;
    check(fd >= 0, "bad fd")?;
    check_ok(close, "close")?;
    Ok(())
}

/// A wall-clock timerfd is created.
pub fn timerfd_create_realtime(create: Sys, close: Sys) -> (r: TestResult)
    ensures
        r == guard(ok(create, "create"), guard(ok(close, "close"), passed())),
{
    check_ok(create, "create")?;
    check_ok(close, "close")?;
    Ok(())
}

/// `TFD_CLOEXEC` sets close-on-exec.
pub fn timerfd_create_cloexec(create: Sys, getfd: SysVal, close: Sys) -> (r: TestResult)
    ensures
        r == guard(ok(create, "create cloexec"), guard(ok(getfd, "F_GETFD"),
            guard(that((getfd->Ok_0) & FD_CLOEXEC != 0, "cloexec not set"),
            guard(ok(close, "close"), passed())))),
{
    check_ok(create, "create cloexec")?;
    let fl = check_ok(getfd, "F_GETFD")?;
    check(fl & FD_CLOEXEC != 0, "cloexec not set")?;
    check_ok(close, "close")?;
    Ok(())
}

/// A one-second relative timer arms.
pub fn timerfd_settime_relative(create: Sys, settime: Sys, close: Sys) -> (r: TestResult)
    ensures
        r == guard(ok(create, "create"), guard(ok(settime, "settime"),
            guard(ok(close, "close"), passed()))),
{
    check_ok(create, "create")?;
    check_ok(settime, "settime")?;
    check_ok(close, "close")?;
    Ok(())
}

/// A timer armed for 10 s has time left.
pub fn timerfd_gettime_after_set(
    create: Sys,
    settime: Sys,
    gettime: Result<Itimerspec, Errno>,
    close: Sys,
) -> (r: TestResult)
    ensures
        r == guard(ok(create, "create"), guard(ok(settime, "settime"),
            guard(ok(gettime, "gettime"),
            guard(that((gettime->Ok_0).value.tv_sec > 0 || (gettime->Ok_0).value.tv_nsec > 0, "zero remaining"),
            guard(ok(close, "close"), passed()))))),
{
    check_ok(create, "create")?;
    check_ok(settime, "settime")?;
    let cur = check_ok(gettime, "gettime")?;
    check(cur.value.tv_sec > 0 || cur.value.tv_nsec > 0, "zero remaining")?;
    check_ok(close, "close")?;
    Ok(())
}

/// A new timer has no time left.
pub fn timerfd_gettime_disarmed(
    create: Sys,
    gettime: Result<Itimerspec, Errno>,
    close: Sys,
) -> (r: TestResult)
    ensures
        r == guard(ok(create, "create"), guard(ok(gettime, "gettime"),
            guard(that((gettime->Ok_0).value.tv_sec == 0, "disarmed sec"),
            guard(that((gettime->Ok_0).value.tv_nsec == 0, "disarmed nsec"),
            guard(ok(close, "close"), passed()))))),
{
    check_ok(create, "create")?;
    let cur = check_ok(gettime, "gettime")?;
    check(cur.value.tv_sec == 0, "disarmed sec")?;
    check(cur.value.tv_nsec == 0, "disarmed nsec")?;
    check_ok(close, "close")?;
    Ok(())
}

/// After a 10 ms timer expired, a read gives a count of at least one
/// (`buf`: the eight bytes read, in native order).
pub fn timerfd_read_expiry(
    create: Sys,
    settime: Sys,
    sleep: Sys,
    read: SysVal,
    buf: [u8; 8],
    close: Sys,
) -> (r: TestResult)
    ensures
        r == guard(ok(create, "create nb"), guard(ok(settime, "settime"), guard(ok(sleep, "sleep"),
            guard(ok(read, "read expiry"), guard(that((read->Ok_0) == 8, "expiry size"),
            guard(that(le_u64(buf@) >= 1, "expirations"), guard(ok(close, "close"), passed()))))))),
{
    check_ok(create, "create nb")?;
    check_ok(settime, "settime")?;
    check_ok(sleep, "sleep")?;
    let n = check_ok(read, "read expiry")?;
    check(n == 8, "expiry size")?;
    check(u64_from_ne_bytes(buf) >= 1, "expirations")?;
    check_ok(close, "close")?;
    Ok(())
}

/// A repeating interval shows in `timerfd_gettime`.
pub fn timerfd_short_interval(
    create: Sys,
    settime: Sys,
    gettime: Result<Itimerspec, Errno>,
    close: Sys,
) -> (r: TestResult)
    ensures
        r == guard(ok(create, "create"), guard(ok(settime, "settime"),
            guard(ok(gettime, "gettime"),
            guard(that((gettime->Ok_0).interval.tv_nsec > 0, "interval set"),
            guard(ok(close, "close"), passed()))))),
{
    check_ok(create, "create")?;
    check_ok(settime, "settime")?;
    let cur = check_ok(gettime, "gettime")?;
    check(cur.interval.tv_nsec > 0, "interval set")?;
    check_ok(close, "close")?;
    Ok(())
}

/// A zero setting disarms an armed timer.
pub fn timerfd_disarm_with_zero(
    create: Sys,
    arm: Sys,
    disarm: Sys,
    gettime: Result<Itimerspec, Errno>,
    close: Sys,
) -> (r: TestResult)
    ensures
        r == guard(ok(create, "create"), guard(ok(arm, "arm"), guard(ok(disarm, "disarm"),
            guard(ok(gettime, "gettime"),
            guard(that((gettime->Ok_0).value.tv_sec == 0, "disarmed"),
            guard(ok(close, "close"), passed())))))),
{
    check_ok(create, "create")?;
    check_ok(arm, "arm")?;
    check_ok(disarm, "disarm")?;
    let cur = check_ok(gettime, "gettime")?;
    check(cur.value.tv_sec == 0, "disarmed")?;
    check_ok(close, "close")?;
    Ok(())
}

/// `TFD_CLOEXEC` with `O_NONBLOCK` sets close-on-exec.
pub fn timerfd_create_cloexec_nonblock(create: Sys, getfd: SysVal, close: Sys) -> (r: TestResult)
    ensures
        r == guard(ok(create, "create"), guard(ok(getfd, "F_GETFD"),
            guard(that((getfd->Ok_0) & FD_CLOEXEC != 0, "cloexec"),
            guard(ok(close, "close"), passed())))),
{
    check_ok(create, "create")?;
    let fl = check_ok(getfd, "F_GETFD")?;
    check(fl & FD_CLOEXEC != 0, "cloexec")?;
    check_ok(close, "close")?;
    Ok(())
}

/// A 100 ms relative timer arms.
pub fn timerfd_settime_short_relative(create: Sys, settime: Sys, close: Sys) -> (r: TestResult)
    ensures
        r == guard(ok(create, "create"), guard(ok(settime, "settime"),
            guard(ok(close, "close"), passed()))),
{
    check_ok(create, "create")?;
    check_ok(settime, "settime")?;
    check_ok(close, "close")?;
    Ok(())
}

} // verus!
