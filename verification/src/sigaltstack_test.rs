//! `sigaltstack`: querying, setting, replacing and disabling the
//! alternate signal stack.

use vstd::prelude::*;
use crate::errno::Errno;
use crate::harness::{Sys, SysVal, TestResult, check, check_ok, guard, ok, only_if, passed, that};

verus! {

/// An alternate signal stack as `sigaltstack` reports it.
#[derive(Clone, Copy, Debug, PartialEq, Eq, Structural)]
pub struct Stack {
    pub sp: u64,
    pub flags: i32,
    pub size: u64,
}

/// `SS_DISABLE`: no alternate stack.
pub const SS_DISABLE: i32 = 2;

/// The size of the stacks the tests install.
pub const ALT_SIZE: u64 = 16 * 1024;

/// The current alternate stack is disabled or at least 2048 bytes.
pub fn sigaltstack_query_default(query: Result<Stack, Errno>) -> (r: TestResult)
    ensures
        r == guard(ok(query, "query"),
            guard(only_if((query->Ok_0).flags & SS_DISABLE == 0, that((query->Ok_0).size >= 2048, "configured size")), passed())),
{
    let old = check_ok(query, "query")?;
    if old.flags & SS_DISABLE == 0 {
        check(old.size >= 2048, "configured size")?;
    }
    Ok(())
}

/// A stack set on a fresh mapping reads back enabled with its size and
/// address; disabling it reads back `SS_DISABLE`.
pub fn sigaltstack_set_and_query(
    mmap: SysVal,
    set: Sys,
    get: Result<Stack, Errno>,
    disable: Sys,
    after: Result<Stack, Errno>,
    munmap: Sys,
) -> (r: TestResult)
    ensures
        r == guard(ok(mmap, "mmap"), guard(ok(set, "set"), guard(ok(get, "get"),
            guard(that((get->Ok_0).flags & SS_DISABLE == 0, "enabled"),
            guard(that((get->Ok_0).size == ALT_SIZE, "size"),
            guard(that((get->Ok_0).sp == (mmap->Ok_0) as u64, "sp"), guard(ok(disable, "disable"),
            guard(ok(after, "query disabled"),
            guard(that((after->Ok_0).flags & SS_DISABLE != 0, "SS_DISABLE"),
            guard(ok(munmap, "munmap"), passed())))))))))),
{
    let addr = check_ok(mmap, "mmap")?;
    check_ok(set, "set")?;
    let cur = check_ok(get, "get")?;
    check(cur.flags & SS_DISABLE == 0, "enabled")?;
    check(cur.size == ALT_SIZE, "size")?;
    check(cur.sp == addr as u64, "sp")?;
    check_ok(disable, "disable")?;
    let af = check_ok(after, "query disabled")?;
    check(af.flags & SS_DISABLE != 0, "SS_DISABLE")?;
    check_ok(munmap, "munmap")?;
    Ok(())
}

/// Replacing a stack reports the one it replaced.
pub fn sigaltstack_replace_returns_old(
    mmap1: SysVal,
    mmap2: SysVal,
    set1: Sys,
    replace: Result<Stack, Errno>,
    disable: Sys,
    munmap1: Sys,
    munmap2: Sys,
) -> (r: TestResult)
    ensures
        r == guard(ok(mmap1, "mmap1"), guard(ok(mmap2, "mmap2"), guard(ok(set1, "set1"),
            guard(ok(replace, "replace"),
            guard(that((replace->Ok_0).sp == (mmap1->Ok_0) as u64, "old sp"),
            guard(that((replace->Ok_0).size == ALT_SIZE, "old size"), guard(ok(disable, "disable"),
            guard(ok(munmap1, "munmap1"), guard(ok(munmap2, "munmap2"), passed()))))))))),
{
    let a1 = check_ok(mmap1, "mmap1")?;
    let a2 = check_ok(mmap2, "mmap2")?;
    check_ok(set1, "set1")?;
    let old = check_ok(replace, "replace")?;
    check(old.sp == a1 as u64, "old sp")?;
    check(old.size == ALT_SIZE, "old size")?;
    check_ok(disable, "disable")?;
    check_ok(munmap1, "munmap1")?;
    check_ok(munmap2, "munmap2")?;
    Ok(())
}

} // verus!
