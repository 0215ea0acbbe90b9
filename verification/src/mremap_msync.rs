//! `mremap`, `msync` and `mincore`, and the monotonic clock's resolution.

use vstd::prelude::*;
use crate::abi::Timespec;
use crate::errno::Errno;
use crate::harness::{Sys, SysVal, TestResult, check, check_ok, guard, ok, passed, that};

verus! {

/// Growing a page to two keeps its first byte (`preserved`, written 0x42)
/// and gives a usable second page (`added`, written 0x99, read back).
pub fn mremap_grow_maymove(
    mmap: Sys,
    mremap: Sys,
    preserved: u8,
    added: u8,
    munmap: Sys,
) -> (r: TestResult)
    ensures
        r == guard(ok(mmap, "mmap"), guard(ok(mremap, "mremap"),
            guard(that(preserved == 0x42, "preserved byte"), guard(that(added == 0x99, "new page"),
            guard(ok(munmap, "munmap"), passed()))))),
{
    check_ok(mmap, "mmap")?;
    check_ok(mremap, "mremap")?;
    check(preserved == 0x42, "preserved byte")?;
    check(added == 0x99, "new page")?;
    check_ok(munmap, "munmap")?;
    Ok(())
}

/// Remapping to the same size keeps the address.
pub fn mremap_same_size(mmap: SysVal, mremap: SysVal, munmap: Sys) -> (r: TestResult)
    ensures
        r == guard(ok(mmap, "mmap"), guard(ok(mremap, "mremap"),
            guard(that((mremap->Ok_0) == (mmap->Ok_0), "same addr"),
            guard(ok(munmap, "munmap"), passed())))),
{
    let a = check_ok(mmap, "mmap")?;
    let b = check_ok(mremap, "mremap")?;
    check(b == a, "same addr")?;
    check_ok(munmap, "munmap")?;
    Ok(())
}

/// `MS_ASYNC` on a written anonymous page succeeds.
pub fn msync_async_anon(mmap: Sys, msync: Sys, munmap: Sys) -> (r: TestResult)
    ensures
        r == guard(ok(mmap, "mmap"), guard(ok(msync, "msync async"),
            guard(ok(munmap, "munmap"), passed()))),
{
    check_ok(mmap, "mmap")?;
    check_ok(msync, "msync async")?;
    check_ok(munmap, "munmap")?;
    Ok(())
}

/// `MS_SYNC` on a written shared file page succeeds.
pub fn msync_sync_file(
    tmp: Sys,
    create: Sys,
    truncate: Sys,
    mmap: Sys,
    msync: Sys,
    munmap: Sys,
    close: Sys,
) -> (r: TestResult)
    ensures
        r == guard(ok(tmp, "tempdir"), guard(ok(create, "create"), guard(ok(truncate, "truncate"),
            guard(ok(mmap, "mmap"), guard(ok(msync, "msync sync"), guard(ok(munmap, "munmap"),
            guard(ok(close, "close"), passed()))))))),
{
    check_ok(tmp, "tempdir")?;
    check_ok(create, "create")?;
    check_ok(truncate, "truncate")?;
    check_ok(mmap, "mmap")?;
    check_ok(msync, "msync sync")?;
    check_ok(munmap, "munmap")?;
    check_ok(close, "close")?;
    Ok(())
}

/// `mincore` of a written anonymous page succeeds.
pub fn mincore_anon_page(mmap: Sys, mincore: Sys, munmap: Sys) -> (r: TestResult)
    ensures
        r == guard(ok(mmap, "mmap"), guard(ok(mincore, "mincore"),
            guard(ok(munmap, "munmap"), passed()))),
{
    check_ok(mmap, "mmap")?;
    check_ok(mincore, "mincore")?;
    check_ok(munmap, "munmap")?;
    Ok(())
}

/// `mincore` of two zeroed pages succeeds.
pub fn mincore_two_pages(mmap: Sys, mincore: Sys, munmap: Sys) -> (r: TestResult)
    ensures
        r == guard(ok(mmap, "mmap"), guard(ok(mincore, "mincore"),
            guard(ok(munmap, "munmap"), passed()))),
{
    check_ok(mmap, "mmap")?;
    check_ok(mincore, "mincore")?;
    check_ok(munmap, "munmap")?;
    Ok(())
}

/// Two pages shrink to one.
pub fn mremap_shrink(mmap: Sys, mremap: Sys, munmap: Sys) -> (r: TestResult)
    ensures
        r == guard(ok(mmap, "mmap"), guard(ok(mremap, "mremap shrink"),
            guard(ok(munmap, "munmap"), passed()))),
{
    check_ok(mmap, "mmap")?;
    check_ok(mremap, "mremap shrink")?;
    check_ok(munmap, "munmap")?;
    Ok(())
}

/// `msync` of the first of two shared file pages succeeds.
pub fn msync_partial_page(
    tmp: Sys,
    create: Sys,
    truncate: Sys,
    mmap: Sys,
    msync: Sys,
    munmap: Sys,
    close: Sys,
) -> (r: TestResult)
    ensures
        r == guard(ok(tmp, "tempdir"), guard(ok(create, "create"), guard(ok(truncate, "truncate"),
            guard(ok(mmap, "mmap"), guard(ok(msync, "msync one page"), guard(ok(munmap, "munmap"),
            guard(ok(close, "close"), passed()))))))),
{
    check_ok(tmp, "tempdir")?;
    check_ok(create, "create")?;
    check_ok(truncate, "truncate")?;
    check_ok(mmap, "mmap")?;
    check_ok(msync, "msync one page")?;
    check_ok(munmap, "munmap")?;
    check_ok(close, "close")?;
    Ok(())
}

/// The bytes `i % 256` for `i` in `0..n`, the pattern written into a page
/// before it is remapped.
pub open spec fn byte_ramp(n: nat) -> Seq<u8> {
    Seq::new(n, |i: int| (i % 256) as u8)
}

/// Whether `buf` is `byte_ramp` of its length.
pub fn is_byte_ramp(buf: &[u8]) -> (r: bool)
    ensures
        r == (buf@ == byte_ramp(buf@.len())),
{
    let mut i: usize = 0;
    while i < buf.len()
        invariant
            i <= buf@.len(),
            forall|j: int| 0 <= j < i ==> buf@[j] == (j % 256) as u8,
        decreases buf.len() - i,
    {
        if buf[i] != (i % 256) as u8 {
            assert(buf@[i as int] != byte_ramp(buf@.len())[i as int]);
            return false;
        }
        i = i + 1;
    }
    assert(buf@ =~= byte_ramp(buf@.len()));
    true
}

/// Where `mremap_grow_preserves_data` reads the page it compares: at the
/// address `mremap` returned (the mapping may have moved, leaving the old
/// address unmapped); nowhere when it failed.
pub fn grow_read_at(mremap: SysVal) -> (at: Option<u64>)
    ensures
        at == (match mremap { Ok(a) => Some(a as u64), Err(_) => None::<u64> }),
{
    match mremap {
        Ok(a) => Some(a as u64),
        Err(_) => None,
    }
}

/// A 4096-byte page written with `byte_ramp` and grown to four pages keeps
/// its bytes (`after`: the first page at the mapping's new address).
pub fn mremap_grow_preserves_data(mmap: Sys, mremap: Sys, after: &[u8], munmap: Sys) -> (r: TestResult)
    ensures
        r == guard(ok(mmap, "mmap"), guard(ok(mremap, "mremap"),
            guard(that(after@ == byte_ramp(4096), "data preserved"),
            guard(ok(munmap, "munmap"), passed())))),
{
    check_ok(mmap, "mmap")?;
    check_ok(mremap, "mremap")?;
    check(after.len() == 4096 && is_byte_ramp(after), "data preserved")?;
    check_ok(munmap, "munmap")?;
    Ok(())
}

/// `mincore` after `MADV_WILLNEED` succeeds.
pub fn mincore_after_madvise(mmap: Sys, madvise: Sys, mincore: Sys, munmap: Sys) -> (r: TestResult)
    ensures
        r == guard(ok(mmap, "mmap"), guard(ok(madvise, "madvise"), guard(ok(mincore, "mincore"),
            guard(ok(munmap, "munmap"), passed())))),
{
    check_ok(mmap, "mmap")?;
    check_ok(madvise, "madvise")?;
    check_ok(mincore, "mincore")?;
    check_ok(munmap, "munmap")?;
    Ok(())
}

/// The monotonic clock's resolution is a positive time.
pub fn clock_getres_monotonic(res: Result<Timespec, Errno>) -> (r: TestResult)
    ensures
        r == guard(ok(res, "getres"), guard(that((res->Ok_0).tv_sec >= 0, "sec"),
            guard(that((res->Ok_0).tv_nsec > 0, "nsec"), passed()))),
{
    let r = check_ok(res, "getres")?;
    check(r.tv_sec >= 0, "sec")?;
    check(r.tv_nsec > 0, "nsec")?;
    Ok(())
}

} // verus!
