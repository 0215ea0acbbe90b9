//! `sysinfo`, `getrusage` and `times`.

use vstd::prelude::*;
use crate::errno::Errno;
use crate::harness::{Sys, TestResult, check, check_ok, guard, ok, passed, that};

verus! {

/// What the checks read of `sysinfo`.
#[derive(Clone, Copy, Debug)]
pub struct SysInfo {
    pub uptime: i64,
    pub loads: [u64; 3],
    pub totalram: u64,
    pub freeram: u64,
    pub procs: u16,
    pub mem_unit: u32,
}

/// What the checks read of `getrusage`.
#[derive(Clone, Copy, Debug, PartialEq, Eq, Structural)]
pub struct Rusage {
    pub utime_sec: i64,
    pub stime_sec: i64,
    pub minflt: i64,
    pub majflt: i64,
    pub inblock: i64,
    pub oublock: i64,
}

/// What `times` reports, in clock ticks.
#[derive(Clone, Copy, Debug, PartialEq, Eq, Structural)]
pub struct Tms {
    pub utime: i64,
    pub stime: i64,
    pub cutime: i64,
    pub cstime: i64,
}

/// Whether every load average is below half the `u64` range.
pub open spec fn loads_readable(loads: [u64; 3]) -> bool {
    forall|i: int| 0 <= i < 3 ==> loads@[i] < u64::MAX / 2
}

/// Whether every load average is below half the `u64` range.
pub fn loads_below_half(loads: &[u64; 3]) -> (r: bool)
    ensures
        r == loads_readable(*loads),
{
    let mut i: usize = 0;
    while i < 3
        invariant
            i <= 3,
            forall|j: int| 0 <= j < i ==> loads@[j] < u64::MAX / 2,
        decreases 3 - i,
    {
        if loads[i] >= u64::MAX / 2 {
            return false;
        }
        i = i + 1;
    }
    true
}

/// The uptime is positive.
pub fn sysinfo_uptime_positive(info: Result<SysInfo, Errno>) -> (r: TestResult)
    ensures
        r == guard(ok(info, "sysinfo"), guard(that((info->Ok_0).uptime > 0, "uptime"), passed())),
{
    let s = check_ok(info, "sysinfo")?;
    check(s.uptime > 0, "uptime")?;
    Ok(())
}

/// The total RAM is positive.
pub fn sysinfo_totalram_positive(info: Result<SysInfo, Errno>) -> (r: TestResult)
    ensures
        r == guard(ok(info, "sysinfo"),
            guard(that((info->Ok_0).totalram > 0, "totalram"), passed())),
{
    let s = check_ok(info, "sysinfo")?;
    check(s.totalram > 0, "totalram")?;
    Ok(())
}

/// Free RAM does not exceed total RAM.
pub fn sysinfo_freeram_le_total(info: Result<SysInfo, Errno>) -> (r: TestResult)
    ensures
        r == guard(ok(info, "sysinfo"),
            guard(that((info->Ok_0).freeram <= (info->Ok_0).totalram, "free <= total"), passed())),
{
    let s = check_ok(info, "sysinfo")?;
    check(s.freeram <= s.totalram, "free <= total")?;
    Ok(())
}

/// The process count is positive.
pub fn sysinfo_procs_positive(info: Result<SysInfo, Errno>) -> (r: TestResult)
    ensures
        r == guard(ok(info, "sysinfo"), guard(that((info->Ok_0).procs > 0, "procs"), passed())),
{
    let s = check_ok(info, "sysinfo")?;
    check(s.procs > 0, "procs")?;
    Ok(())
}

/// The process's user and system seconds are not negative.
pub fn getrusage_self(usage: Result<Rusage, Errno>) -> (r: TestResult)
    ensures
        r == guard(ok(usage, "getrusage"), guard(that((usage->Ok_0).utime_sec >= 0, "utime sec"),
            guard(that((usage->Ok_0).stime_sec >= 0, "stime sec"), passed()))),
{
    let ru = check_ok(usage, "getrusage")?;
    check(ru.utime_sec >= 0, "utime sec")?;
    check(ru.stime_sec >= 0, "stime sec")?;
    Ok(())
}

/// The fault counts are not negative.
pub fn getrusage_self_non_negative_faults(usage: Result<Rusage, Errno>) -> (r: TestResult)
    ensures
        r == guard(ok(usage, "getrusage"), guard(that((usage->Ok_0).minflt >= 0, "minflt"),
            guard(that((usage->Ok_0).majflt >= 0, "majflt"), passed()))),
{
    let ru = check_ok(usage, "getrusage")?;
    check(ru.minflt >= 0, "minflt")?;
    check(ru.majflt >= 0, "majflt")?;
    Ok(())
}

/// After reaping a child, its times are not negative.
pub fn getrusage_children_after_wait(
    fork: Sys,
    wait: Sys,
    usage: Result<Rusage, Errno>,
) -> (r: TestResult)
    ensures
        r == guard(ok(fork, "fork"), guard(ok(wait, "wait4"),
            guard(ok(usage, "getrusage children"),
            guard(that((usage->Ok_0).utime_sec >= 0 || (usage->Ok_0).stime_sec >= 0, "child time"), passed())))),
{
    check_ok(fork, "fork")?;
    check_ok(wait, "wait4")?;
    let ru = check_ok(usage, "getrusage children")?;
    check(ru.utime_sec >= 0 || ru.stime_sec >= 0, "child time")?;
    Ok(())
}

/// The process's own tick counts are not negative.
pub fn times_self(t: Result<Tms, Errno>) -> (r: TestResult)
    ensures
        r == guard(ok(t, "times"), guard(that((t->Ok_0).utime >= 0, "utime"),
            guard(that((t->Ok_0).stime >= 0, "stime"), passed()))),
{
    let v = check_ok(t, "times")?;
    check(v.utime >= 0, "utime")?;
    check(v.stime >= 0, "stime")?;
    Ok(())
}

/// The children's tick counts are not negative.
pub fn times_cutime_cstime(t: Result<Tms, Errno>) -> (r: TestResult)
    ensures
        r == guard(ok(t, "times"), guard(that((t->Ok_0).cutime >= 0, "cutime"),
            guard(that((t->Ok_0).cstime >= 0, "cstime"), passed()))),
{
    let v = check_ok(t, "times")?;
    check(v.cutime >= 0, "cutime")?;
    check(v.cstime >= 0, "cstime")?;
    Ok(())
}

/// User ticks do not go down across a burst of calls.
pub fn times_after_work(t1: Result<Tms, Errno>, t2: Result<Tms, Errno>) -> (r: TestResult)
    ensures
        r == guard(ok(t1, "times1"), guard(ok(t2, "times2"),
            guard(that((t2->Ok_0).utime >= (t1->Ok_0).utime, "utime grew"), passed()))),
{
    let a = check_ok(t1, "times1")?;
    let b = check_ok(t2, "times2")?;
    check(b.utime >= a.utime, "utime grew")?;
    Ok(())
}

/// The memory unit is at least 1.
pub fn sysinfo_mem_unit(info: Result<SysInfo, Errno>) -> (r: TestResult)
    ensures
        r == guard(ok(info, "sysinfo"),
            guard(that((info->Ok_0).mem_unit >= 1, "mem_unit"), passed())),
{
    let s = check_ok(info, "sysinfo")?;
    check(s.mem_unit >= 1, "mem_unit")?;
    Ok(())
}

/// The load averages are readable values.
pub fn sysinfo_loads_non_negative(info: Result<SysInfo, Errno>) -> (r: TestResult)
    ensures
        r == guard(ok(info, "sysinfo"),
            guard(that(loads_readable((info->Ok_0).loads), "load"), passed())),
{
    let s = check_ok(info, "sysinfo")?;
    check(loads_below_half(&s.loads), "load")?;
    Ok(())
}

/// The block I/O counts are not negative.
pub fn getrusage_inblock_oublock(usage: Result<Rusage, Errno>) -> (r: TestResult)
    ensures
        r == guard(ok(usage, "getrusage"), guard(that((usage->Ok_0).inblock >= 0, "inblock"),
            guard(that((usage->Ok_0).oublock >= 0, "oublock"), passed()))),
{
    let ru = check_ok(usage, "getrusage")?;
    check(ru.inblock >= 0, "inblock")?;
    check(ru.oublock >= 0, "oublock")?;
    Ok(())
}

} // verus!
