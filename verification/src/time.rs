//! Clocks and sleeps.

use vstd::prelude::*;
use crate::abi::Timespec;
use crate::errno::{Errno, EACCES, EINVAL, EPERM};
use crate::harness::{
    Sys, TestResult, check, check_ok, failed_with, fails_with, guard, ok, passed, that,
};

verus! {

/// Whether a time's nanoseconds are in `0..1_000_000_000`.
pub open spec fn spec_valid_nsec(ts: Timespec) -> bool {
    0 <= ts.tv_nsec < 1_000_000_000
}

/// Whether a time's nanoseconds are in `0..1_000_000_000`.
pub fn valid_nsec(ts: &Timespec) -> (r: bool)
    ensures
        r == spec_valid_nsec(*ts),
{
    ts.tv_nsec >= 0 && ts.tv_nsec < 1_000_000_000
}

/// Whether time `a` is not after time `b`.
pub open spec fn not_after(a: Timespec, b: Timespec) -> bool {
    b.tv_sec > a.tv_sec || (b.tv_sec == a.tv_sec && b.tv_nsec >= a.tv_nsec)
}

/// The wall clock reads after September 2020 with valid nanoseconds.
pub fn clock_realtime(t: Result<Timespec, Errno>) -> (r: TestResult)
    ensures
        r == guard(ok(t, "realtime"),
            guard(that((t->Ok_0).tv_sec > 1_600_000_000, "realtime too small"),
            guard(that(spec_valid_nsec((t->Ok_0)), "bad nsec"), passed()))),
{
    let v = check_ok(t, "realtime")?;
    check(v.tv_sec > 1_600_000_000, "realtime too small")?;
    check(valid_nsec(&v), "bad nsec")?;
    Ok(())
}

/// The monotonic clock reads a non-negative time with valid nanoseconds.
pub fn clock_monotonic(t: Result<Timespec, Errno>) -> (r: TestResult)
    ensures
        r == guard(ok(t, "monotonic"), guard(that((t->Ok_0).tv_sec >= 0, "negative monotonic"),
            guard(that(spec_valid_nsec((t->Ok_0)), "bad nsec"), passed()))),
{
    let v = check_ok(t, "monotonic")?;
    check(v.tv_sec >= 0, "negative monotonic")?;
    check(valid_nsec(&v), "bad nsec")?;
    Ok(())
}

/// The raw monotonic clock reads a non-negative time with valid nanoseconds.
pub fn clock_monotonic_raw(t: Result<Timespec, Errno>) -> (r: TestResult)
    ensures
        r == guard(ok(t, "raw"), guard(that((t->Ok_0).tv_sec >= 0, "negative raw"),
            guard(that(spec_valid_nsec((t->Ok_0)), "bad nsec"), passed()))),
{
    let v = check_ok(t, "raw")?;
    check(v.tv_sec >= 0, "negative raw")?;
    check(valid_nsec(&v), "bad nsec")?;
    Ok(())
}

/// The process CPU-time clock reads a non-negative time with valid
/// nanoseconds.
pub fn clock_process_cputime(t: Result<Timespec, Errno>) -> (r: TestResult)
    ensures
        r == guard(ok(t, "cputime"), guard(that((t->Ok_0).tv_sec >= 0, "negative cputime sec"),
            guard(that(spec_valid_nsec((t->Ok_0)), "bad nsec"), passed()))),
{
    let v = check_ok(t, "cputime")?;
    check(v.tv_sec >= 0, "negative cputime sec")?;
    check(valid_nsec(&v), "bad nsec")?;
    Ok(())
}

/// A one-millisecond `nanosleep` succeeds.
pub fn nanosleep_short(sleep: Sys) -> (r: TestResult)
    ensures
        r == guard(ok(sleep, "nanosleep"), passed()),
{
    check_ok(sleep, "nanosleep")?;
    Ok(())
}

/// A two-millisecond `clock_nanosleep` on the monotonic clock succeeds.
pub fn clock_nanosleep_monotonic(sleep: Sys) -> (r: TestResult)
    ensures
        r == guard(ok(sleep, "clock_nanosleep"), passed()),
{
    check_ok(sleep, "clock_nanosleep")?;
    Ok(())
}

/// `gettimeofday` (seconds, microseconds) reads after September 2020 with
/// microseconds in range.
pub fn gettimeofday(tv: Result<(i64, i64), Errno>) -> (r: TestResult)
    ensures
        r == guard(ok(tv, "gettimeofday"),
            guard(that((tv->Ok_0).0 > 1_600_000_000, "tv_sec small"),
            guard(that((tv->Ok_0).1 >= 0 && (tv->Ok_0).1 < 1_000_000, "tv_usec range"), passed()))),
{
    let v = check_ok(tv, "gettimeofday")?;
    check(v.0 > 1_600_000_000, "tv_sec small")?;
    check(v.1 >= 0 && v.1 < 1_000_000, "tv_usec range")?;
    Ok(())
}

/// The monotonic clock's nanoseconds are in range.
pub fn timespec_nsec_range(t: Result<Timespec, Errno>) -> (r: TestResult)
    ensures
        r == guard(ok(t, "mono"),
            guard(that(spec_valid_nsec((t->Ok_0)), "nsec out of range"), passed())),
{
    let v = check_ok(t, "mono")?;
    check(valid_nsec(&v), "nsec out of range")?;
    Ok(())
}

/// Two monotonic readings do not go backwards.
pub fn monotonic_non_decreasing(
    t1: Result<Timespec, Errno>,
    t2: Result<Timespec, Errno>,
) -> (r: TestResult)
    ensures
        r == guard(ok(t1, "t1"), guard(ok(t2, "t2"),
            guard(that(not_after((t1->Ok_0), (t2->Ok_0)), "monotonic went backwards"), passed()))),
{
    let a = check_ok(t1, "t1")?;
    let b = check_ok(t2, "t2")?;
    check(b.tv_sec > a.tv_sec || (b.tv_sec == a.tv_sec && b.tv_nsec >= a.tv_nsec), "monotonic went backwards")?;
    Ok(())
}

/// Setting the wall clock to its own reading succeeds or is refused with
/// EPERM, EACCES or EINVAL.
pub fn clock_settime_realtime_eperm(now: Result<Timespec, Errno>, set: Sys) -> (r: TestResult)
    ensures
        r == guard(ok(now, "gettime"),
            guard(that(set is Ok || fails_with(set, seq![EPERM, EACCES, EINVAL]), "clock_settime errno"), passed())),
{
    let v = check_ok(now, "gettime")?;
    check(set.is_ok() || failed_with(&set, &[EPERM, EACCES, EINVAL]), "clock_settime errno")?;
    Ok(())
}

} // verus!
