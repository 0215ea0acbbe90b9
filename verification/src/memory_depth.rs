//! Memory mappings in depth: protections, advice, locking, remapping,
//! residency and the program break.

use vstd::prelude::*;
use crate::plan::Act;
use crate::errno::{Errno, EACCES, EAGAIN, EINVAL, ENOMEM, ENOSYS, EPERM};
use crate::harness::{
    Sys, SysVal, TestResult, check, check_ok, guard, nested, ok, only_if, passed, that,
};

verus! {

/// Errors under which `mlock` counts as refused here.
pub open spec fn is_mlock_soft(e: Errno) -> bool {
    e.0 == EPERM || e.0 == ENOMEM || e.0 == EAGAIN || e.0 == EINVAL || e.0 == ENOSYS
}

/// Whether an `mlock` error counts as a refusal.
pub fn soft_mlock(e: Errno) -> (r: bool)
    ensures
        r == is_mlock_soft(e),
{
    e.0 == EPERM || e.0 == ENOMEM || e.0 == EAGAIN || e.0 == EINVAL || e.0 == ENOSYS
}

/// An anonymous mapping for a test.
pub fn map_anon(mmap: Sys) -> (r: TestResult)
    ensures
        r == guard(ok(mmap, "mmap"), passed()),
{
    check_ok(mmap, "mmap")?;
    Ok(())
}

/// A private anonymous page takes a write and unmaps.
pub fn mmap_private_anon(map: TestResult, munmap: Sys) -> (r: TestResult)
    ensures
        r == guard(nested(map), guard(ok(munmap, "munmap"), passed())),
{
    map?;
    check_ok(munmap, "munmap")?;
    Ok(())
}

/// A shared anonymous page maps and unmaps, or is refused with EINVAL or
/// ENOSYS.
pub fn mmap_shared_anon_soft(mmap: Sys, munmap: Sys) -> (r: TestResult)
    ensures
        r == guard(only_if(mmap is Ok, ok(munmap, "munmap")),
            guard(that(mmap is Ok || (mmap->Err_0.0 == EINVAL || mmap->Err_0.0 == ENOSYS), "shared anon"), passed())),
{
    if mmap.is_ok() {
        check_ok(munmap, "munmap")?;
    }
    check(match mmap { Ok(_) => true, Err(e) => e.0 == EINVAL || e.0 == ENOSYS }, "shared anon")?;
    Ok(())
}

/// A `PROT_NONE` anonymous page maps.
pub fn mmap_prot_none(map: TestResult, munmap: Sys) -> (r: TestResult)
    ensures
        r == guard(nested(map), guard(ok(munmap, "munmap"), passed())),
{
    map?;
    check_ok(munmap, "munmap")?;
    Ok(())
}

/// A read-only anonymous page maps.
pub fn mmap_prot_read_only(map: TestResult, munmap: Sys) -> (r: TestResult)
    ensures
        r == guard(nested(map), guard(ok(munmap, "munmap"), passed())),
{
    map?;
    check_ok(munmap, "munmap")?;
    Ok(())
}

/// `MAP_FIXED` over the second page of a mapping lands there, or is refused
/// with EINVAL or ENOMEM.
pub fn mmap_fixed_soft(base: SysVal, fixed: SysVal, munmap: Sys) -> (r: TestResult)
    ensures
        r == guard(ok(base, "mmap"),
            guard(that(fixed is Ok ==> fixed->Ok_0 == (base->Ok_0) + 4096, "fixed"),
            guard(that(fixed is Ok || (fixed->Err_0.0 == EINVAL || fixed->Err_0.0 == ENOMEM), "MAP_FIXED"),
            guard(ok(munmap, "munmap"), passed())))),
{
    let b = check_ok(base, "mmap")?;
    check(match fixed { Ok(a) => a as i128 == b as i128 + 4096, Err(_) => true }, "fixed")?;
    check(match fixed { Ok(_) => true, Err(e) => e.0 == EINVAL || e.0 == ENOMEM }, "MAP_FIXED")?;
    check_ok(munmap, "munmap")?;
    Ok(())
}

/// The calls `mmap_fixed_soft` makes besides its checks: when the
/// `MAP_FIXED` mapping fails other than with EINVAL or ENOMEM, it unmaps the
/// two pages at `base` before the test fails.
pub fn mmap_fixed_cleanup(base: u64, fixed: SysVal) -> (acts: Vec<Act>)
    ensures
        acts@ == (if fixed is Err && !(fixed->Err_0.0 == EINVAL || fixed->Err_0.0 == ENOMEM) { seq![Act::Munmap(base, 8192)] } else { Seq::<Act>::empty() }),
{
    if match fixed { Err(e) => !(e.0 == EINVAL || e.0 == ENOMEM), Ok(_) => false } {
        vec![Act::Munmap(base, 8192)]
    } else {
        vec![]
    }
}

/// A private file mapping shows the file's first byte "Z".
pub fn mmap_file_private(
    tmp: Sys,
    create: Sys,
    truncate: Sys,
    pwrite: Sys,
    mmap: Sys,
    byte: u8,
    munmap: Sys,
    close: Sys,
) -> (r: TestResult)
    ensures
        r == guard(ok(tmp, "tempdir"), guard(ok(create, "create"), guard(ok(truncate, "trunc"),
            guard(ok(pwrite, "pw"), guard(ok(mmap, "mmap"), guard(that(byte == 90, "byte"),
            guard(ok(munmap, "munmap"), guard(ok(close, "close"), passed())))))))),
{
    check_ok(tmp, "tempdir")?;
    check_ok(create, "create")?;
    check_ok(truncate, "trunc")?;
    check_ok(pwrite, "pw")?;
    check_ok(mmap, "mmap")?;
    check(byte == 90, "byte")?;
    check_ok(munmap, "munmap")?;
    check_ok(close, "close")?;
    Ok(())
}

/// A page goes to `PROT_NONE` and back to read.
pub fn mprotect_none(map: TestResult, none: Sys, read: Sys, munmap: Sys) -> (r: TestResult)
    ensures
        r == guard(nested(map), guard(ok(none, "none"), guard(ok(read, "read"),
            guard(ok(munmap, "munmap"), passed())))),
{
    map?;
    check_ok(none, "none")?;
    check_ok(read, "read")?;
    check_ok(munmap, "munmap")?;
    Ok(())
}

/// A read-only page becomes writable.
pub fn mprotect_write(map: TestResult, rw: Sys, munmap: Sys) -> (r: TestResult)
    ensures
        r == guard(nested(map), guard(ok(rw, "rw"), guard(ok(munmap, "munmap"), passed()))),
{
    map?;
    check_ok(rw, "rw")?;
    check_ok(munmap, "munmap")?;
    Ok(())
}

/// A page becomes executable, or is refused with EPERM, EINVAL or EACCES.
pub fn mprotect_exec_soft(map: TestResult, exec: Sys, munmap: Sys) -> (r: TestResult)
    ensures
        r == guard(nested(map),
            guard(that(exec is Ok || (exec->Err_0.0 == EPERM || exec->Err_0.0 == EINVAL || exec->Err_0.0 == EACCES), "mprotect exec"),
            guard(ok(munmap, "munmap"), passed()))),
{
    map?;
    check(match exec { Ok(_) => true, Err(e) => e.0 == EPERM || e.0 == EINVAL || e.0 == EACCES }, "mprotect exec")?;
    check_ok(munmap, "munmap")?;
    Ok(())
}

/// `MADV_NORMAL` is accepted.
pub fn madvise_normal(map: TestResult, advise: Sys, munmap: Sys) -> (r: TestResult)
    ensures
        r == guard(nested(map), guard(ok(advise, "normal"), guard(ok(munmap, "munmap"), passed()))),
{
    map?;
    check_ok(advise, "normal")?;
    check_ok(munmap, "munmap")?;
    Ok(())
}

/// `MADV_RANDOM` is accepted.
pub fn madvise_random(map: TestResult, advise: Sys, munmap: Sys) -> (r: TestResult)
    ensures
        r == guard(nested(map), guard(ok(advise, "random"), guard(ok(munmap, "munmap"), passed()))),
{
    map?;
    check_ok(advise, "random")?;
    check_ok(munmap, "munmap")?;
    Ok(())
}

/// `MADV_SEQUENTIAL` is accepted.
pub fn madvise_sequential(map: TestResult, advise: Sys, munmap: Sys) -> (r: TestResult)
    ensures
        r == guard(nested(map), guard(ok(advise, "seq"), guard(ok(munmap, "munmap"), passed()))),
{
    map?;
    check_ok(advise, "seq")?;
    check_ok(munmap, "munmap")?;
    Ok(())
}

/// `MADV_WILLNEED` is accepted.
pub fn madvise_willneed(map: TestResult, advise: Sys, munmap: Sys) -> (r: TestResult)
    ensures
        r == guard(nested(map), guard(ok(advise, "willneed"),
            guard(ok(munmap, "munmap"), passed()))),
{
    map?;
    check_ok(advise, "willneed")?;
    check_ok(munmap, "munmap")?;
    Ok(())
}

/// `MADV_DONTNEED` after a write is accepted.
pub fn madvise_dontneed_again(map: TestResult, advise: Sys, munmap: Sys) -> (r: TestResult)
    ensures
        r == guard(nested(map), guard(ok(advise, "dontneed"),
            guard(ok(munmap, "munmap"), passed()))),
{
    map?;
    check_ok(advise, "dontneed")?;
    check_ok(munmap, "munmap")?;
    Ok(())
}

/// `MADV_FREE` is accepted or refused with EINVAL or ENOSYS.
pub fn madvise_free_soft(map: TestResult, advise: Sys, munmap: Sys) -> (r: TestResult)
    ensures
        r == guard(nested(map),
            guard(that(advise is Ok || (advise->Err_0.0 == EINVAL || advise->Err_0.0 == ENOSYS), "MADV_FREE"),
            guard(ok(munmap, "munmap"), passed()))),
{
    map?;
    check(match advise { Ok(_) => true, Err(e) => e.0 == EINVAL || e.0 == ENOSYS }, "MADV_FREE")?;
    check_ok(munmap, "munmap")?;
    Ok(())
}

/// `MADV_HUGEPAGE` is accepted or refused with EINVAL or ENOSYS.
pub fn madvise_hugepage_soft(map: TestResult, advise: Sys, munmap: Sys) -> (r: TestResult)
    ensures
        r == guard(nested(map),
            guard(that(advise is Ok || (advise->Err_0.0 == EINVAL || advise->Err_0.0 == ENOSYS), "HUGEPAGE"),
            guard(ok(munmap, "munmap"), passed()))),
{
    map?;
    check(match advise { Ok(_) => true, Err(e) => e.0 == EINVAL || e.0 == ENOSYS }, "HUGEPAGE")?;
    check_ok(munmap, "munmap")?;
    Ok(())
}

/// `MADV_NOHUGEPAGE` is accepted or refused with EINVAL or ENOSYS.
pub fn madvise_nohugepage_soft(map: TestResult, advise: Sys, munmap: Sys) -> (r: TestResult)
    ensures
        r == guard(nested(map),
            guard(that(advise is Ok || (advise->Err_0.0 == EINVAL || advise->Err_0.0 == ENOSYS), "NOHUGEPAGE"),
            guard(ok(munmap, "munmap"), passed()))),
{
    map?;
    check(match advise { Ok(_) => true, Err(e) => e.0 == EINVAL || e.0 == ENOSYS }, "NOHUGEPAGE")?;
    check_ok(munmap, "munmap")?;
    Ok(())
}

/// A page locks and unlocks, or locking is refused.
pub fn mlock_soft_eperm(map: TestResult, lock: Sys, unlock: Sys, munmap: Sys) -> (r: TestResult)
    ensures
        r == guard(nested(map), guard(only_if(lock is Ok, ok(unlock, "munlock")),
            guard(that(lock is Ok || (is_mlock_soft(lock->Err_0)), "mlock"),
            guard(ok(munmap, "munmap"), passed())))),
{
    map?;
    if lock.is_ok() {
        check_ok(unlock, "munlock")?;
    }
    check(match lock { Ok(_) => true, Err(e) => soft_mlock(e) }, "mlock")?;
    check_ok(munmap, "munmap")?;
    Ok(())
}

/// Two pages lock, or locking is refused.
pub fn mlock_two_pages_soft(map: TestResult, lock: Sys, munmap: Sys) -> (r: TestResult)
    ensures
        r == guard(nested(map), guard(that(lock is Ok || (is_mlock_soft(lock->Err_0)), "mlock2"),
            guard(ok(munmap, "munmap"), passed()))),
{
    map?;
    check(match lock { Ok(_) => true, Err(e) => soft_mlock(e) }, "mlock2")?;
    check_ok(munmap, "munmap")?;
    Ok(())
}

/// A page grows to two, at a real address.
pub fn mremap_maymove_grow(map: TestResult, mremap: SysVal, munmap: Sys) -> (r: TestResult)
    ensures
        r == guard(nested(map), guard(ok(mremap, "mremap"),
            guard(that((mremap->Ok_0) != 0, "addr"), guard(ok(munmap, "munmap"), passed())))),
{
    map?;
    let a = check_ok(mremap, "mremap")?;
    check(a != 0, "addr")?;
    check_ok(munmap, "munmap")?;
    Ok(())
}

/// Two pages shrink to one.
pub fn mremap_maymove_shrink(map: TestResult, mremap: Sys, munmap: Sys) -> (r: TestResult)
    ensures
        r == guard(nested(map), guard(ok(mremap, "mremap"), guard(ok(munmap, "munmap"), passed()))),
{
    map?;
    check_ok(mremap, "mremap")?;
    check_ok(munmap, "munmap")?;
    Ok(())
}

/// Remapping to the same size succeeds.
pub fn mremap_same_size(map: TestResult, mremap: Sys, munmap: Sys) -> (r: TestResult)
    ensures
        r == guard(nested(map), guard(ok(mremap, "mremap"), guard(ok(munmap, "munmap"), passed()))),
{
    map?;
    check_ok(mremap, "mremap")?;
    check_ok(munmap, "munmap")?;
    Ok(())
}

/// A touched page is resident.
pub fn mincore_anon_page(map: TestResult, mincore: Sys, vec0: u8, munmap: Sys) -> (r: TestResult)
    ensures
        r == guard(nested(map), guard(ok(mincore, "mincore"),
            guard(that(vec0 & 1 != 0, "resident"), guard(ok(munmap, "munmap"), passed())))),
{
    map?;
    check_ok(mincore, "mincore")?;
    check(vec0 & 1 != 0, "resident")?;
    check_ok(munmap, "munmap")?;
    Ok(())
}

/// Two touched pages are resident.
pub fn mincore_two_pages(
    map: TestResult,
    mincore: Sys,
    vec0: u8,
    vec1: u8,
    munmap: Sys,
) -> (r: TestResult)
    ensures
        r == guard(nested(map), guard(ok(mincore, "mincore"), guard(that(vec0 & 1 != 0, "p0"),
            guard(that(vec1 & 1 != 0, "p1"), guard(ok(munmap, "munmap"), passed()))))),
{
    map?;
    check_ok(mincore, "mincore")?;
    check(vec0 & 1 != 0, "p0")?;
    check(vec1 & 1 != 0, "p1")?;
    check_ok(munmap, "munmap")?;
    Ok(())
}

/// The program break is not null.
pub fn brk_query_nonzero(brk: SysVal) -> (r: TestResult)
    ensures
        r == guard(ok(brk, "brk0"), guard(that((brk->Ok_0) != 0, "null"), passed())),
{
    let cur = check_ok(brk, "brk0")?;
    check(cur != 0, "null")?;
    Ok(())
}

/// The break grows by a page, or growing is refused with ENOMEM, EINVAL or
/// EPERM.
pub fn brk_grow_shrink_soft(query: SysVal, grow: SysVal) -> (r: TestResult)
    ensures
        r == guard(ok(query, "cur"),
            guard(that(grow is Ok ==> grow->Ok_0 >= (query->Ok_0) + 4096, "grew"),
            guard(that(grow is Ok || (grow->Err_0.0 == ENOMEM || grow->Err_0.0 == EINVAL || grow->Err_0.0 == EPERM), "brk grow"), passed()))),
{
    let cur = check_ok(query, "cur")?;
    check(match grow { Ok(n) => n as i128 >= cur as i128 + 4096, Err(_) => true }, "grew")?;
    check(match grow { Ok(_) => true, Err(e) => e.0 == ENOMEM || e.0 == EINVAL || e.0 == EPERM }, "brk grow")?;
    Ok(())
}

/// The break grows by two pages, or growing is refused.
pub fn brk_grow_two_pages_soft(query: SysVal, grow: Sys) -> (r: TestResult)
    ensures
        r == guard(ok(query, "cur"),
            guard(that(grow is Ok || (grow->Err_0.0 == ENOMEM || grow->Err_0.0 == EINVAL || grow->Err_0.0 == EPERM), "brk 8k"), passed())),
{
    let cur = check_ok(query, "cur")?;
    check(match grow { Ok(_) => true, Err(e) => e.0 == ENOMEM || e.0 == EINVAL || e.0 == EPERM }, "brk 8k")?;
    Ok(())
}

/// Two pages take writes at both ends.
pub fn mmap_len_8192(map: TestResult, munmap: Sys) -> (r: TestResult)
    ensures
        r == guard(nested(map), guard(ok(munmap, "munmap"), passed())),
{
    map?;
    check_ok(munmap, "munmap")?;
    Ok(())
}

/// A `MAP_POPULATE` page answers `mincore`.
pub fn mmap_populate_touch(mmap: Sys, mincore: Sys, munmap: Sys) -> (r: TestResult)
    ensures
        r == guard(ok(mmap, "mmap"), guard(ok(mincore, "mincore"),
            guard(ok(munmap, "munmap"), passed()))),
{
    check_ok(mmap, "mmap")?;
    check_ok(mincore, "mincore")?;
    check_ok(munmap, "munmap")?;
    Ok(())
}

/// Two adjacent pages take different protections.
pub fn mprotect_split_two_pages(map: TestResult, p0: Sys, p1: Sys, munmap: Sys) -> (r: TestResult)
    ensures
        r == guard(nested(map), guard(ok(p0, "p0"), guard(ok(p1, "p1"),
            guard(ok(munmap, "munmap"), passed())))),
{
    map?;
    check_ok(p0, "p0")?;
    check_ok(p1, "p1")?;
    check_ok(munmap, "munmap")?;
    Ok(())
}

/// Unmapping a low unmapped address succeeds or fails with EINVAL.
pub fn munmap_bad_addr_soft(munmap: Sys) -> (r: TestResult)
    ensures
        r == guard(that(munmap is Ok || (munmap->Err_0.0 == EINVAL), "munmap bad"), passed()),
{
    check(match munmap { Ok(_) => true, Err(e) => e.0 == EINVAL }, "munmap bad")?;
    Ok(())
}

/// An unknown advice fails with EINVAL or is accepted.
pub fn madvise_bad_advice_einval(map: TestResult, advise: Sys, munmap: Sys) -> (r: TestResult)
    ensures
        r == guard(nested(map),
            guard(that(advise is Ok || (advise->Err_0.0 == EINVAL), "bad advice"),
            guard(ok(munmap, "munmap"), passed()))),
{
    map?;
    check(match advise { Ok(_) => true, Err(e) => e.0 == EINVAL }, "bad advice")?;
    check_ok(munmap, "munmap")?;
    Ok(())
}

/// `mincore` of an untouched page succeeds.
pub fn mincore_unfaulted_page(map: TestResult, mincore: Sys, munmap: Sys) -> (r: TestResult)
    ensures
        r == guard(nested(map), guard(ok(mincore, "mincore"),
            guard(ok(munmap, "munmap"), passed()))),
{
    map?;
    check_ok(mincore, "mincore")?;
    check_ok(munmap, "munmap")?;
    Ok(())
}

/// `mincore` of a mapping grown to four pages succeeds.
pub fn mremap_grow_then_mincore(
    map: TestResult,
    mremap: Sys,
    mincore: Sys,
    munmap: Sys,
) -> (r: TestResult)
    ensures
        r == guard(nested(map), guard(ok(mremap, "mremap"), guard(ok(mincore, "mincore"),
            guard(ok(munmap, "munmap"), passed())))),
{
    map?;
    check_ok(mremap, "mremap")?;
    check_ok(mincore, "mincore")?;
    check_ok(munmap, "munmap")?;
    Ok(())
}

/// A zero-length mapping fails with EINVAL.
pub fn mmap_zero_len_einval(mmap: Sys) -> (r: TestResult)
    ensures
        r == guard(that(mmap is Err, "mmap 0"),
            guard(that(mmap->Err_0.0 == EINVAL, "mmap 0 errno"), passed())),
{
    check(mmap.is_err(), "mmap 0")?;
    check(match mmap { Err(e) => e.0 == EINVAL, Ok(_) => true }, "mmap 0 errno")?;
    Ok(())
}

/// `mprotect` of a low unmapped address fails with ENOMEM, EINVAL or EACCES,
/// or succeeds.
pub fn mprotect_bad_addr_soft(mprotect: Sys) -> (r: TestResult)
    ensures
        r ==
            guard(that(mprotect is Ok || (mprotect->Err_0.0 == ENOMEM || mprotect->Err_0.0 == EINVAL || mprotect->Err_0.0 == EACCES), "mprotect bad"), passed()),
{
    check(match mprotect { Ok(_) => true, Err(e) => e.0 == ENOMEM || e.0 == EINVAL || e.0 == EACCES }, "mprotect bad")?;
    Ok(())
}

/// A store of "W" through a shared file mapping reads back with `pread`
/// after `msync`.
pub fn mmap_shared_file_writeback(
    tmp: Sys,
    create: Sys,
    truncate: Sys,
    mmap: Sys,
    msync: Sys,
    munmap: Sys,
    pread: Sys,
    byte: u8,
    close: Sys,
) -> (r: TestResult)
    ensures
        r == guard(ok(tmp, "tempdir"), guard(ok(create, "create"), guard(ok(truncate, "trunc"),
            guard(ok(mmap, "mmap"), guard(ok(msync, "msync"), guard(ok(munmap, "munmap"),
            guard(ok(pread, "pread"), guard(that(byte == 87, "wb"),
            guard(ok(close, "close"), passed()))))))))),
{
    check_ok(tmp, "tempdir")?;
    check_ok(create, "create")?;
    check_ok(truncate, "trunc")?;
    check_ok(mmap, "mmap")?;
    check_ok(msync, "msync")?;
    check_ok(munmap, "munmap")?;
    check_ok(pread, "pread")?;
    check(byte == 87, "wb")?;
    check_ok(close, "close")?;
    Ok(())
}

/// A sub-page length locks, or locking is refused.
pub fn mlock_partial_page_soft(map: TestResult, lock: Sys, munmap: Sys) -> (r: TestResult)
    ensures
        r == guard(nested(map),
            guard(that(lock is Ok || (is_mlock_soft(lock->Err_0)), "mlock partial"),
            guard(ok(munmap, "munmap"), passed()))),
{
    map?;
    check(match lock { Ok(_) => true, Err(e) => soft_mlock(e) }, "mlock partial")?;
    check_ok(munmap, "munmap")?;
    Ok(())
}

/// Two queries of the break agree.
pub fn brk_idempotent_query(a: SysVal, b: SysVal) -> (r: TestResult)
    ensures
        r == guard(ok(a, "a"), guard(ok(b, "b"),
            guard(that((a->Ok_0) == (b->Ok_0), "stable"), passed()))),
{
    let x = check_ok(a, "a")?;
    let y = check_ok(b, "b")?;
    check(x == y, "stable")?;
    Ok(())
}

} // verus!
