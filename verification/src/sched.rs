//! Scheduler affinity, policy and priority.

use vstd::prelude::*;
use crate::bytes::{any_nonzero, bytes_eq};
use crate::harness::{Sys, SysVal, TestResult, check, check_ok, guard, ok, passed, that};
use crate::wait_status::{spec_exit_code, wexitstatus};

verus! {

/// `SCHED_OTHER`, the default scheduling policy.
pub const SCHED_OTHER: i64 = 0;

/// Whether a CPU mask has a CPU in it.
pub open spec fn has_cpu(mask: Seq<u8>) -> bool {
    exists|i: int| 0 <= i < mask.len() && mask[i] != 0
}

/// Whether a CPU mask has a CPU in it.
pub fn affinity_has_cpu(mask: &[u8]) -> (r: bool)
    ensures
        r == has_cpu(mask@),
{
    any_nonzero(mask)
}

/// Whether a nice value is in the range Linux gives: -20 to 19.
pub open spec fn nice_in_range(n: i64) -> bool {
    -20 <= n <= 19
}

/// Exit code of the child of `sched_getaffinity_child`: 0 when it read a
/// mask with a CPU in it, 1 otherwise.
pub fn affinity_child_exit_code(get: Sys, mask: &[u8]) -> (code: i32)
    ensures
        code == (if get is Ok && has_cpu(mask@) { 0i32 } else { 1i32 }),
{
    if get.is_ok() && affinity_has_cpu(mask) { 0 } else { 1 }
}

/// Exit code of the child of `getpriority_child`: 0 when it read a nice
/// value in range, 1 otherwise.
pub fn priority_child_exit_code(nice: SysVal) -> (code: i32)
    ensures
        code == (match nice { Ok(n) => if nice_in_range(n) { 0i32 } else { 1i32 }, Err(_) => 1i32 }),
{
    match nice {
        Ok(n) => if n >= -20 && n <= 19 { 0 } else { 1 },
        Err(_) => 1,
    }
}

/// The calling thread's CPU mask has a CPU in it.
pub fn sched_getaffinity_self_nonempty(get: Sys, mask: &[u8]) -> (r: TestResult)
    ensures
        r == guard(ok(get, "getaffinity"), guard(that(has_cpu(mask@), "empty cpumask"), passed())),
{
    check_ok(get, "getaffinity")?;
    check(affinity_has_cpu(mask), "empty cpumask")?;
    Ok(())
}

/// The mask read by the process's own id has a CPU in it.
pub fn sched_getaffinity_pid_self(get: Sys, mask: &[u8]) -> (r: TestResult)
    ensures
        r == guard(ok(get, "getaffinity pid"),
            guard(that(has_cpu(mask@), "empty cpumask"), passed())),
{
    check_ok(get, "getaffinity pid")?;
    check(affinity_has_cpu(mask), "empty cpumask")?;
    Ok(())
}

/// An eight-byte mask buffer still gets a CPU.
pub fn sched_getaffinity_small_buffer(get: Sys, mask: &[u8]) -> (r: TestResult)
    ensures
        r == guard(ok(get, "getaffinity small"),
            guard(that(has_cpu(mask@), "cpu in small mask"), passed())),
{
    check_ok(get, "getaffinity small")?;
    check(affinity_has_cpu(mask), "cpu in small mask")?;
    Ok(())
}

/// A 256-byte mask buffer gets a CPU.
pub fn sched_getaffinity_large_buffer(get: Sys, mask: &[u8]) -> (r: TestResult)
    ensures
        r == guard(ok(get, "getaffinity large"),
            guard(that(has_cpu(mask@), "cpu in large mask"), passed())),
{
    check_ok(get, "getaffinity large")?;
    check(affinity_has_cpu(mask), "cpu in large mask")?;
    Ok(())
}

/// The calling thread runs under `SCHED_OTHER`.
pub fn sched_getscheduler_self(pol: SysVal) -> (r: TestResult)
    ensures
        r == guard(ok(pol, "getscheduler"),
            guard(that((pol->Ok_0) == SCHED_OTHER, "policy"), passed())),
{
    let p = check_ok(pol, "getscheduler")?;
    check(p == SCHED_OTHER, "policy")?;
    Ok(())
}

/// The process, by its id, runs under `SCHED_OTHER`.
pub fn sched_getscheduler_pid(pol: SysVal) -> (r: TestResult)
    ensures
        r == guard(ok(pol, "getscheduler pid"),
            guard(that((pol->Ok_0) == SCHED_OTHER, "policy"), passed())),
{
    let p = check_ok(pol, "getscheduler pid")?;
    check(p == SCHED_OTHER, "policy")?;
    Ok(())
}

/// The nice value is between -20 and 19.
pub fn getpriority_self(nice: SysVal) -> (r: TestResult)
    ensures
        r == guard(ok(nice, "getpriority"),
            guard(that(nice_in_range((nice->Ok_0)), "nice range"), passed())),
{
    let n = check_ok(nice, "getpriority")?;
    check(n >= -20 && n <= 19, "nice range")?;
    Ok(())
}

/// The nice value read by process id is between -20 and 19.
pub fn getpriority_pid(nice: SysVal) -> (r: TestResult)
    ensures
        r == guard(ok(nice, "getpriority pid"),
            guard(that(nice_in_range((nice->Ok_0)), "nice range"), passed())),
{
    let n = check_ok(nice, "getpriority pid")?;
    check(n >= -20 && n <= 19, "nice range")?;
    Ok(())
}

/// A forked child reads a CPU mask with a CPU in it (it exits 0, see
/// `affinity_child_exit_code`).
pub fn sched_getaffinity_child(fork: Sys, wait: Sys, status: i32) -> (r: TestResult)
    ensures
        r == guard(ok(fork, "fork"), guard(ok(wait, "wait4"),
            guard(that(spec_exit_code(status) == 0, "child affinity"), passed()))),
{
    check_ok(fork, "fork")?;
    check_ok(wait, "wait4")?;
    check(wexitstatus(status) == 0, "child affinity")?;
    Ok(())
}

/// A forked child reads a nice value in range (it exits 0, see
/// `priority_child_exit_code`).
pub fn getpriority_child(fork: Sys, wait: Sys, status: i32) -> (r: TestResult)
    ensures
        r == guard(ok(fork, "fork"), guard(ok(wait, "wait4"),
            guard(that(spec_exit_code(status) == 0, "child priority"), passed()))),
{
    check_ok(fork, "fork")?;
    check_ok(wait, "wait4")?;
    check(wexitstatus(status) == 0, "child priority")?;
    Ok(())
}

/// The policy read for pid 0 and for the process's id agree.
pub fn sched_getscheduler_zero_pid(a: SysVal, b: SysVal) -> (r: TestResult)
    ensures
        r == guard(ok(a, "sched 0"), guard(ok(b, "sched pid"),
            guard(that((a->Ok_0) == (b->Ok_0), "0 vs pid"), passed()))),
{
    let x = check_ok(a, "sched 0")?;
    let y = check_ok(b, "sched pid")?;
    check(x == y, "0 vs pid")?;
    Ok(())
}

/// The nice value read for pid 0 and for the process's id agree.
pub fn getpriority_zero_vs_pid(a: SysVal, b: SysVal) -> (r: TestResult)
    ensures
        r == guard(ok(a, "prio 0"), guard(ok(b, "prio pid"),
            guard(that((a->Ok_0) == (b->Ok_0), "0 vs pid"), passed()))),
{
    let x = check_ok(a, "prio 0")?;
    let y = check_ok(b, "prio pid")?;
    check(x == y, "0 vs pid")?;
    Ok(())
}

/// Two reads of the CPU mask agree.
pub fn sched_getaffinity_twice_stable(a1: Sys, a2: Sys, m1: &[u8], m2: &[u8]) -> (r: TestResult)
    ensures
        r == guard(ok(a1, "a1"), guard(ok(a2, "a2"),
            guard(that(m1@ == m2@, "stable mask"), passed()))),
{
    check_ok(a1, "a1")?;
    check_ok(a2, "a2")?;
    check(bytes_eq(m1, m2), "stable mask")?;
    Ok(())
}

/// Setting the mask just read succeeds and leaves a CPU in the mask.
pub fn sched_setaffinity_same_mask(
    get: Sys,
    set: Sys,
    get_again: Sys,
    again: &[u8],
) -> (r: TestResult)
    ensures
        r == guard(ok(get, "get"), guard(ok(set, "set same"), guard(ok(get_again, "get again"),
            guard(that(has_cpu(again@), "still nonempty"), passed())))),
{
    check_ok(get, "get")?;
    check_ok(set, "set same")?;
    check_ok(get_again, "get again")?;
    check(affinity_has_cpu(again), "still nonempty")?;
    Ok(())
}

/// Setting the process's mask by its id succeeds.
pub fn sched_setaffinity_pid_self(get: Sys, set: Sys) -> (r: TestResult)
    ensures
        r == guard(ok(get, "get"), guard(ok(set, "set pid"), passed())),
{
    check_ok(get, "get")?;
    check_ok(set, "set pid")?;
    Ok(())
}

/// Setting the same mask twice succeeds.
pub fn sched_setaffinity_roundtrip(get: Sys, set: Sys, set_twice: Sys) -> (r: TestResult)
    ensures
        r == guard(ok(get, "get"), guard(ok(set, "set"),
            guard(ok(set_twice, "set twice"), passed()))),
{
    check_ok(get, "get")?;
    check_ok(set, "set")?;
    check_ok(set_twice, "set twice")?;
    Ok(())
}

} // verus!
