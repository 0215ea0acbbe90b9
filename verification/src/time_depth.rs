//! Clocks, sleeps, timerfds, interval timers and POSIX timers in depth.

use vstd::prelude::*;
use crate::abi::Timespec;
use crate::errno::{Errno, EAGAIN, EINTR, EINVAL, ENOSYS, EPERM};
use crate::harness::{
    Sys, SysVal, TestResult, check, check_ok, fail, failure, guard, ok, only_if, passed, that,
};
use crate::time::{not_after, spec_valid_nsec, valid_nsec};
use crate::timerfd::Itimerspec;

verus! {

/// Errors under which a clock or timer call counts as unsupported here:
/// EINVAL, ENOSYS and EPERM.
pub open spec fn is_soft_clock(e: Errno) -> bool {
    e.0 == EINVAL || e.0 == ENOSYS || e.0 == EPERM
}

/// Whether a clock or timer call's error means it is unsupported here.
pub fn soft_clock(e: Errno) -> (r: bool)
    ensures
        r == is_soft_clock(e),
{
    e.0 == EINVAL || e.0 == ENOSYS || e.0 == EPERM
}

/// A call that must succeed unless it is unsupported: the rest of the test
/// on success, a pass on an unsupported error, a failure named `msg` on
/// another error.
pub open spec fn clock_gate<T>(r: Result<T, Errno>, msg: &'static str, rest: TestResult) -> TestResult {
    match r {
        Ok(_) => rest,
        Err(e) => if is_soft_clock(e) { Ok(()) } else { Err(failure(msg)) },
    }
}

/// Verdict of the `time_depth_*` clock tests (one per named clock):
/// `clock_gettime` gives a non-negative time with valid nanoseconds, or fails
/// with EINVAL, ENOSYS or EPERM.
pub fn clock_get(get: Result<Timespec, Errno>) -> (r: TestResult)
    ensures
        r == guard(only_if(get is Ok, ok(get, "sec")),
            guard(only_if(get is Ok, that((get->Ok_0).tv_sec >= 0, "sec")),
            guard(only_if(get is Ok, that(spec_valid_nsec((get->Ok_0)), "nsec")),
            guard(that(get is Ok || is_soft_clock(get->Err_0), "clock_gettime"), passed())))),
{
    if get.is_ok() {
        let t = check_ok(get, "sec")?;
        check(t.tv_sec >= 0, "sec")?;
        check(valid_nsec(&t), "nsec")?;
    }
    check(match get { Ok(_) => true, Err(e) => soft_clock(e) }, "clock_gettime")?;
    Ok(())
}

/// Verdict of the `time_depth_res_*` tests (one per named clock):
/// `clock_getres` gives a non-negative, nonzero resolution with valid
/// nanoseconds, or fails with EINVAL, ENOSYS or EPERM.
pub fn clock_res(res: Result<Timespec, Errno>) -> (r: TestResult)
    ensures
        r == guard(only_if(res is Ok, ok(res, "sec")),
            guard(only_if(res is Ok, that((res->Ok_0).tv_sec >= 0, "sec")),
            guard(only_if(res is Ok, that(spec_valid_nsec((res->Ok_0)), "nsec")),
            guard(only_if(res is Ok, that((res->Ok_0).tv_sec > 0 || (res->Ok_0).tv_nsec > 0, "nonzero res")),
            guard(that(res is Ok || is_soft_clock(res->Err_0), "clock_getres"), passed()))))),
{
    if res.is_ok() {
        let t = check_ok(res, "sec")?;
        check(t.tv_sec >= 0, "sec")?;
        check(valid_nsec(&t), "nsec")?;
        check(t.tv_sec > 0 || t.tv_nsec > 0, "nonzero res")?;
    }
    check(match res { Ok(_) => true, Err(e) => soft_clock(e) }, "clock_getres")?;
    Ok(())
}

/// A zero-length `nanosleep` succeeds.
pub fn nanosleep_zero(sleep: Sys) -> (r: TestResult)
    ensures
        r == guard(ok(sleep, "zero"), passed()),
{
    check_ok(sleep, "zero")?;
    Ok(())
}

/// A one-nanosecond `nanosleep` succeeds.
pub fn nanosleep_one_ns(sleep: Sys) -> (r: TestResult)
    ensures
        r == guard(ok(sleep, "1ns"), passed()),
{
    check_ok(sleep, "1ns")?;
    Ok(())
}

/// `nanosleep` with `tv_nsec` of 1e9 fails with EINVAL or succeeds.
pub fn nanosleep_bad_nsec_einval(sleep: Sys) -> (r: TestResult)
    ensures
        r == guard(that(sleep is Ok || sleep->Err_0.0 == EINVAL, "bad nsec"), passed()),
{
    check(match sleep { Ok(_) => true, Err(e) => e.0 == EINVAL }, "bad nsec")?;
    Ok(())
}

/// `nanosleep` with a negative `tv_sec` fails with EINVAL or succeeds.
pub fn nanosleep_negative_sec_einval(sleep: Sys) -> (r: TestResult)
    ensures
        r == guard(that(sleep is Ok || sleep->Err_0.0 == EINVAL, "neg sec"), passed()),
{
    check(match sleep { Ok(_) => true, Err(e) => e.0 == EINVAL }, "neg sec")?;
    Ok(())
}

/// A 100 µs `nanosleep` succeeds or fails with EINTR.
pub fn nanosleep_interrupt_soft(sleep: Sys) -> (r: TestResult)
    ensures
        r == guard(that(sleep is Ok || sleep->Err_0.0 == EINTR, "nanosleep"), passed()),
{
    check(match sleep { Ok(_) => true, Err(e) => e.0 == EINTR }, "nanosleep")?;
    Ok(())
}

/// A zero-length `clock_nanosleep` on the monotonic clock succeeds.
pub fn clock_nanosleep_zero(sleep: Sys) -> (r: TestResult)
    ensures
        r == guard(ok(sleep, "zero"), passed()),
{
    check_ok(sleep, "zero")?;
    Ok(())
}

/// A short `clock_nanosleep` on the wall clock succeeds.
pub fn clock_nanosleep_realtime(sleep: Sys) -> (r: TestResult)
    ensures
        r == guard(ok(sleep, "rt"), passed()),
{
    check_ok(sleep, "rt")?;
    Ok(())
}

/// `gettimeofday` (seconds, microseconds) gives microseconds in
/// `0..1_000_000`.
pub fn gettimeofday_usec_range(tv: Result<(i64, i64), Errno>) -> (r: TestResult)
    ensures
        r == guard(ok(tv, "gtod"),
            guard(that((tv->Ok_0).1 >= 0 && (tv->Ok_0).1 < 1_000_000, "usec"), passed())),
{
    let t = check_ok(tv, "gtod")?;
    check(t.1 >= 0 && t.1 < 1_000_000, "usec")?;
    Ok(())
}

/// A wall-clock timerfd with `TFD_CLOEXEC` is created.
pub fn timerfd_create_realtime(create: Sys, close: Sys) -> (r: TestResult)
    ensures
        r == guard(ok(create, "tfd"), guard(ok(close, "close"), passed())),
{
    check_ok(create, "tfd")?;
    check_ok(close, "close")?;
    Ok(())
}

/// A monotonic timerfd with `TFD_CLOEXEC` is created.
pub fn timerfd_create_monotonic(create: Sys, close: Sys) -> (r: TestResult)
    ensures
        r == guard(ok(create, "tfd"), guard(ok(close, "close"), passed())),
{
    check_ok(create, "tfd")?;
    check_ok(close, "close")?;
    Ok(())
}

/// A timerfd with `TFD_CLOEXEC | TFD_NONBLOCK` is created.
pub fn timerfd_create_nonblock(create: Sys, close: Sys) -> (r: TestResult)
    ensures
        r == guard(ok(create, "tfd"), guard(ok(close, "close"), passed())),
{
    check_ok(create, "tfd")?;
    check_ok(close, "close")?;
    Ok(())
}

/// A timerfd armed at an absolute time an hour ahead shows time left, then
/// disarms.
pub fn timerfd_absolute_set(
    create: Sys,
    now: Sys,
    set: Sys,
    get: Result<Itimerspec, Errno>,
    disarm: Sys,
    close: Sys,
) -> (r: TestResult)
    ensures
        r == guard(ok(create, "tfd"), guard(ok(now, "now"), guard(ok(set, "set"),
            guard(ok(get, "get"),
            guard(that((get->Ok_0).value.tv_sec > 0 || (get->Ok_0).value.tv_nsec > 0, "armed"),
            guard(ok(disarm, "disarm"), guard(ok(close, "close"), passed()))))))),
{
    check_ok(create, "tfd")?;
    check_ok(now, "now")?;
    check_ok(set, "set")?;
    let cur = check_ok(get, "get")?;
    check(cur.value.tv_sec > 0 || cur.value.tv_nsec > 0, "armed")?;
    check_ok(disarm, "disarm")?;
    check_ok(close, "close")?;
    Ok(())
}

/// A timerfd arms for one millisecond.
pub fn timerfd_relative_short(create: Sys, set: Sys, close: Sys) -> (r: TestResult)
    ensures
        r == guard(ok(create, "tfd"), guard(ok(set, "set"), guard(ok(close, "close"), passed()))),
{
    check_ok(create, "tfd")?;
    check_ok(set, "set")?;
    check_ok(close, "close")?;
    Ok(())
}

/// A new timerfd has no time left.
pub fn timerfd_gettime_disarmed(
    create: Sys,
    get: Result<Itimerspec, Errno>,
    close: Sys,
) -> (r: TestResult)
    ensures
        r == guard(ok(create, "tfd"), guard(ok(get, "get"),
            guard(that((get->Ok_0).value.tv_sec == 0, "sec"),
            guard(that((get->Ok_0).value.tv_nsec == 0, "nsec"),
            guard(ok(close, "close"), passed()))))),
{
    check_ok(create, "tfd")?;
    let cur = check_ok(get, "get")?;
    check(cur.value.tv_sec == 0, "sec")?;
    check(cur.value.tv_nsec == 0, "nsec")?;
    check_ok(close, "close")?;
    Ok(())
}

/// `getitimer(ITIMER_REAL)` succeeds.
pub fn itimer_get_real(get: Sys) -> (r: TestResult)
    ensures
        r == guard(ok(get, "get"), passed()),
{
    check_ok(get, "get")?;
    Ok(())
}

/// Setting `ITIMER_REAL` to zero succeeds.
pub fn itimer_set_disarm(set: Sys) -> (r: TestResult)
    ensures
        r == guard(ok(set, "set"), passed()),
{
    check_ok(set, "set")?;
    Ok(())
}

/// `ITIMER_REAL` arms for 60 s and clears.
pub fn itimer_set_short_then_clear(arm: Sys, clear: Sys) -> (r: TestResult)
    ensures
        r == guard(ok(arm, "arm"), guard(ok(clear, "clear"), passed())),
{
    check_ok(arm, "arm")?;
    check_ok(clear, "clear")?;
    Ok(())
}

/// A `SIGEV_NONE` monotonic timer is created and deleted.
pub fn posix_timer_create_delete(create: Sys, delete: Sys) -> (r: TestResult)
    ensures
        r == guard(ok(create, "create"), guard(ok(delete, "delete"), passed())),
{
    check_ok(create, "create")?;
    check_ok(delete, "delete")?;
    Ok(())
}

/// A timer armed for 100 s shows whole seconds left.
pub fn posix_timer_settime_get(
    create: Sys,
    set: Sys,
    get: Result<Itimerspec, Errno>,
    delete: Sys,
) -> (r: TestResult)
    ensures
        r == guard(ok(create, "create"), guard(ok(set, "set"), guard(ok(get, "get"),
            guard(that((get->Ok_0).value.tv_sec > 0, "armed"),
            guard(ok(delete, "delete"), passed()))))),
{
    check_ok(create, "create")?;
    check_ok(set, "set")?;
    let cur = check_ok(get, "get")?;
    check(cur.value.tv_sec > 0, "armed")?;
    check_ok(delete, "delete")?;
    Ok(())
}

/// A wall-clock `SIGEV_NONE` timer is created and deleted, or creating it
/// fails with EINVAL, ENOSYS or EPERM.
pub fn posix_timer_realtime(create: Sys, delete: Sys) -> (r: TestResult)
    ensures
        r == guard(only_if(create is Ok, ok(delete, "del")),
            guard(that(create is Ok || is_soft_clock(create->Err_0), "timer_create rt"), passed())),
{
    if create.is_ok() {
        check_ok(delete, "del")?;
    }
    check(match create { Ok(_) => true, Err(e) => soft_clock(e) }, "timer_create rt")?;
    Ok(())
}

/// A timer arms for 50 s and disarms; the test passes when creating it fails
/// with EINVAL, ENOSYS or EPERM.
pub fn posix_timer_disarm(create: Sys, arm: Sys, disarm: Sys, delete: Sys) -> (r: TestResult)
    ensures
        r == clock_gate(create, "create", guard(ok(arm, "arm"), guard(ok(disarm, "disarm"),
            guard(ok(delete, "del"), passed())))),
{
    match create { Ok(_) => {}, Err(e) => { if soft_clock(e) { return Ok(()); } return Err(fail("create")); } }
    check_ok(arm, "arm")?;
    check_ok(disarm, "disarm")?;
    check_ok(delete, "del")?;
    Ok(())
}

/// The monotonic clock does not go back across a yield.
pub fn monotonic_advances(a: Result<Timespec, Errno>, b: Result<Timespec, Errno>) -> (r: TestResult)
    ensures
        r == guard(ok(a, "a"), guard(ok(b, "b"),
            guard(that(not_after((a->Ok_0), (b->Ok_0)), "advance"), passed()))),
{
    let x = check_ok(a, "a")?;
    let y = check_ok(b, "b")?;
    check(y.tv_sec > x.tv_sec || (y.tv_sec == x.tv_sec && y.tv_nsec >= x.tv_nsec), "advance")?;
    Ok(())
}

/// The wall clock and `gettimeofday` (seconds, microseconds) agree within two
/// seconds.
pub fn realtime_matches_gettimeofday_rough(
    ts: Result<Timespec, Errno>,
    tv: Result<(i64, i64), Errno>,
) -> (r: TestResult)
    requires
        ts is Ok && tv is Ok ==> i64::MIN < ts->Ok_0.tv_sec - tv->Ok_0.0 <= i64::MAX,
    ensures
        r == guard(ok(ts, "ts"), guard(ok(tv, "tv"),
            guard(that(-2 <= (ts->Ok_0).tv_sec - (tv->Ok_0).0 <= 2, "skew"), passed()))),
{
    let a = check_ok(ts, "ts")?;
    let b = check_ok(tv, "tv")?;
    let diff: i64 = a.tv_sec - b.0;
    check((if diff < 0 { -diff } else { diff }) <= 2, "skew")?;
    Ok(())
}

/// `clock_getres` of an unknown clock fails with EINVAL, or with ENOSYS or
/// EPERM (unsupported).
pub fn clock_getres_invalid_soft(res: Result<Timespec, Errno>) -> (r: TestResult)
    ensures
        r == guard(that(res is Err && is_soft_clock(res->Err_0), "bad clock"), passed()),
{
    check(match res { Ok(_) => false, Err(e) => soft_clock(e) }, "bad clock")?;
    Ok(())
}

/// A timerfd armed for 10 s disarms with a zero setting.
pub fn timerfd_settime_zero_disarm(
    create: Sys,
    arm: Sys,
    disarm: Sys,
    close: Sys,
) -> (r: TestResult)
    ensures
        r == guard(ok(create, "tfd"), guard(ok(arm, "arm"), guard(ok(disarm, "disarm"),
            guard(ok(close, "close"), passed())))),
{
    check_ok(create, "tfd")?;
    check_ok(arm, "arm")?;
    check_ok(disarm, "disarm")?;
    check_ok(close, "close")?;
    Ok(())
}

/// A timerfd armed at an absolute time in the past reads (any count) or
/// fails with EAGAIN.
pub fn timerfd_absolute_past_fires_soft(
    create: Sys,
    set: Sys,
    read: SysVal,
    close: Sys,
) -> (r: TestResult)
    ensures
        r == guard(ok(create, "tfd"), guard(ok(set, "set"),
            guard(that(read is Ok || read->Err_0.0 == EAGAIN, "read tfd"),
            guard(ok(close, "close"), passed())))),
{
    check_ok(create, "tfd")?;
    check_ok(set, "set")?;
    check(match read { Ok(_) => true, Err(e) => e.0 == EAGAIN }, "read tfd")?;
    check_ok(close, "close")?;
    Ok(())
}

/// After clearing `ITIMER_REAL`, `getitimer` shows no time left (seconds,
/// microseconds).
pub fn itimer_get_after_clear(clear: Sys, get: Result<(i64, i64), Errno>) -> (r: TestResult)
    ensures
        r == guard(ok(clear, "clear"), guard(ok(get, "get"), guard(that((get->Ok_0).0 == 0, "sec"),
            guard(that((get->Ok_0).1 == 0, "usec"), passed())))),
{
    check_ok(clear, "clear")?;
    let cur = check_ok(get, "get")?;
    check(cur.0 == 0, "sec")?;
    check(cur.1 == 0, "usec")?;
    Ok(())
}

/// A timer set with a one-second interval reports that interval.
pub fn posix_timer_interval(
    create: Sys,
    set: Sys,
    get: Result<Itimerspec, Errno>,
    delete: Sys,
) -> (r: TestResult)
    ensures
        r == guard(ok(create, "create"), guard(ok(set, "set"), guard(ok(get, "get"),
            guard(that((get->Ok_0).interval.tv_sec == 1, "interval"),
            guard(ok(delete, "del"), passed()))))),
{
    check_ok(create, "create")?;
    check_ok(set, "set")?;
    let cur = check_ok(get, "get")?;
    check(cur.interval.tv_sec == 1, "interval")?;
    check_ok(delete, "del")?;
    Ok(())
}

/// `clock_nanosleep` with a negative `tv_nsec` fails with EINVAL or
/// succeeds.
pub fn clock_nanosleep_bad_nsec(sleep: Sys) -> (r: TestResult)
    ensures
        r == guard(that(sleep is Ok || sleep->Err_0.0 == EINVAL, "cns bad"), passed()),
{
    check(match sleep { Ok(_) => true, Err(e) => e.0 == EINVAL }, "cns bad")?;
    Ok(())
}

} // verus!
