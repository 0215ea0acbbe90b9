//! Memory mappings: anonymous and shared file mappings, unmapping,
//! protection changes, advice, the program break and preallocation.

use vstd::prelude::*;
use crate::harness::{Sys, SysVal, TestResult, check, check_ok, guard, nested, ok, passed, that};

verus! {

/// A private anonymous page maps at a real address and keeps what is
/// written at its first and last byte (`first`, `last`: read back after
/// writing 0xAA and 0x55).
pub fn mmap_anonymous_rw(mmap: SysVal, first: u8, last: u8, munmap: Sys) -> (r: TestResult)
    ensures
        r == guard(ok(mmap, "mmap"),
            guard(that((mmap->Ok_0) != 0 && (mmap->Ok_0) != -1, "bad addr"),
            guard(that(first == 0xAA, "start byte"), guard(that(last == 0x55, "end byte"),
            guard(ok(munmap, "munmap"), passed()))))),
{
    let a = check_ok(mmap, "mmap")?;
    check(a != 0 && a != -1, "bad addr")?;
    check(first == 0xAA, "start byte")?;
    check(last == 0x55, "end byte")?;
    check_ok(munmap, "munmap")?;
    Ok(())
}

/// A store through a shared file mapping shows in the file.
pub fn mmap_file_shared(
    tmp: Sys,
    create: Sys,
    truncate: Sys,
    mmap: Sys,
    munmap: Sys,
    close: Sys,
    copy: TestResult,
    reopen: Sys,
    read: Sys,
    byte: u8,
    close2: Sys,
) -> (r: TestResult)
    ensures
        r == guard(ok(tmp, "tempdir"), guard(ok(create, "create"), guard(ok(truncate, "ftruncate"),
            guard(ok(mmap, "mmap file"), guard(ok(munmap, "munmap"), guard(ok(close, "close"),
            guard(nested(copy), guard(ok(reopen, "reopen"), guard(ok(read, "read"),
            guard(that(byte == 88, "shared write visible"),
            guard(ok(close2, "close2"), passed()))))))))))),
{
    check_ok(tmp, "tempdir")?;
    check_ok(create, "create")?;
    check_ok(truncate, "ftruncate")?;
    check_ok(mmap, "mmap file")?;
    check_ok(munmap, "munmap")?;
    check_ok(close, "close")?;
    copy?;
    check_ok(reopen, "reopen")?;
    check_ok(read, "read")?;
    check(byte == 88, "shared write visible")?;
    check_ok(close2, "close2")?;
    Ok(())
}

/// Two pages unmap one at a time.
pub fn munmap_partial(mmap: Sys, half: Sys, rest: Sys) -> (r: TestResult)
    ensures
        r == guard(ok(mmap, "mmap"), guard(ok(half, "munmap half"),
            guard(ok(rest, "munmap rest"), passed()))),
{
    check_ok(mmap, "mmap")?;
    check_ok(half, "munmap half")?;
    check_ok(rest, "munmap rest")?;
    Ok(())
}

/// A page goes read-only and back to read-write.
pub fn mprotect_none_roundtrip(mmap: Sys, ro: Sys, rw: Sys, munmap: Sys) -> (r: TestResult)
    ensures
        r == guard(ok(mmap, "mmap"), guard(ok(ro, "mprotect RO"), guard(ok(rw, "mprotect RW"),
            guard(ok(munmap, "munmap"), passed())))),
{
    check_ok(mmap, "mmap")?;
    check_ok(ro, "mprotect RO")?;
    check_ok(rw, "mprotect RW")?;
    check_ok(munmap, "munmap")?;
    Ok(())
}

/// Each page of a mapping goes read-only on its own.
pub fn mprotect_split_pages(mmap: Sys, page0: Sys, page1: Sys, munmap: Sys) -> (r: TestResult)
    ensures
        r == guard(ok(mmap, "mmap"), guard(ok(page0, "page0 RO"), guard(ok(page1, "page1 RO"),
            guard(ok(munmap, "munmap"), passed())))),
{
    check_ok(mmap, "mmap")?;
    check_ok(page0, "page0 RO")?;
    check_ok(page1, "page1 RO")?;
    check_ok(munmap, "munmap")?;
    Ok(())
}

/// `MADV_DONTNEED` is accepted on an anonymous page.
pub fn madvise_dontneed(mmap: Sys, advise: Sys, munmap: Sys) -> (r: TestResult)
    ensures
        r == guard(ok(mmap, "mmap"), guard(ok(advise, "madvise"),
            guard(ok(munmap, "munmap"), passed()))),
{
    check_ok(mmap, "mmap")?;
    check_ok(advise, "madvise")?;
    check_ok(munmap, "munmap")?;
    Ok(())
}

/// The program break is not null.
pub fn brk_query(brk: SysVal) -> (r: TestResult)
    ensures
        r == guard(ok(brk, "brk(0)"), guard(that((brk->Ok_0) != 0, "brk returned null"), passed())),
{
    let cur = check_ok(brk, "brk(0)")?;
    check(cur != 0, "brk returned null")?;
    Ok(())
}

/// Preallocating 4096 bytes gives size 4096.
pub fn fallocate_punch_hole(
    tmp: Sys,
    create: Sys,
    allocate: Sys,
    copy: TestResult,
    size: SysVal,
    close: Sys,
) -> (r: TestResult)
    ensures
        r == guard(ok(tmp, "tempdir"), guard(ok(create, "create"), guard(ok(allocate, "fallocate"),
            guard(nested(copy), guard(ok(size, "stat"), guard(that((size->Ok_0) == 4096, "size"),
            guard(ok(close, "close"), passed()))))))),
{
    check_ok(tmp, "tempdir")?;
    check_ok(create, "create")?;
    check_ok(allocate, "fallocate")?;
    copy?;
    let s = check_ok(size, "stat")?;
    check(s == 4096, "size")?;
    check_ok(close, "close")?;
    Ok(())
}

/// An anonymous mapping without `MAP_FIXED` maps and unmaps.
pub fn mmap_fixed_not_used(mmap: Sys, munmap: Sys) -> (r: TestResult)
    ensures
        r == guard(ok(mmap, "mmap"), guard(ok(munmap, "munmap"), passed())),
{
    check_ok(mmap, "mmap")?;
    check_ok(munmap, "munmap")?;
    Ok(())
}

} // verus!
