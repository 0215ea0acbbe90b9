//! `sync` and `syncfs`.

use vstd::prelude::*;
use crate::harness::{Sys, TestResult, check_ok, guard, nested, ok, passed};

verus! {

/// `sync` succeeds.
pub fn sync_returns(sync: Sys) -> (r: TestResult)
    ensures
        r == guard(ok(sync, "sync"), passed()),
{
    check_ok(sync, "sync")?;
    Ok(())
}

/// `syncfs` on a written temporary file succeeds.
pub fn syncfs_temp_file(
    tmp: Sys,
    create: TestResult,
    open: Sys,
    write: Sys,
    syncfs: Sys,
    close: Sys,
) -> (r: TestResult)
    ensures
        r == guard(ok(tmp, "tempdir"), guard(nested(create), guard(ok(open, "open"),
            guard(ok(write, "write"), guard(ok(syncfs, "syncfs"),
            guard(ok(close, "close"), passed())))))),
{
    check_ok(tmp, "tempdir")?;
    create?;
    check_ok(open, "open")?;
    check_ok(write, "write")?;
    check_ok(syncfs, "syncfs")?;
    check_ok(close, "close")?;
    Ok(())
}

/// `syncfs` after a truncate succeeds.
pub fn syncfs_after_truncate(
    tmp: Sys,
    create: Sys,
    truncate: Sys,
    syncfs: Sys,
    close: Sys,
) -> (r: TestResult)
    ensures
        r == guard(ok(tmp, "tempdir"), guard(ok(create, "create"), guard(ok(truncate, "truncate"),
            guard(ok(syncfs, "syncfs"), guard(ok(close, "close"), passed()))))),
{
    check_ok(tmp, "tempdir")?;
    check_ok(create, "create")?;
    check_ok(truncate, "truncate")?;
    check_ok(syncfs, "syncfs")?;
    check_ok(close, "close")?;
    Ok(())
}

/// Two `sync`s succeed.
pub fn sync_twice(sync1: Sys, sync2: Sys) -> (r: TestResult)
    ensures
        r == guard(ok(sync1, "sync1"), guard(ok(sync2, "sync2"), passed())),
{
    check_ok(sync1, "sync1")?;
    check_ok(sync2, "sync2")?;
    Ok(())
}

/// `syncfs` on a memfd succeeds.
pub fn syncfs_memfd(memfd: Sys, write: Sys, syncfs: Sys, close: Sys) -> (r: TestResult)
    ensures
        r == guard(ok(memfd, "memfd"), guard(ok(write, "write"), guard(ok(syncfs, "syncfs"),
            guard(ok(close, "close"), passed())))),
{
    check_ok(memfd, "memfd")?;
    check_ok(write, "write")?;
    check_ok(syncfs, "syncfs")?;
    check_ok(close, "close")?;
    Ok(())
}

/// `syncfs` on a directory descriptor succeeds.
pub fn syncfs_dir_fd(tmp: Sys, open: Sys, syncfs: Sys, close: Sys) -> (r: TestResult)
    ensures
        r == guard(ok(tmp, "tempdir"), guard(ok(open, "open dir"), guard(ok(syncfs, "syncfs dir"),
            guard(ok(close, "close"), passed())))),
{
    check_ok(tmp, "tempdir")?;
    check_ok(open, "open dir")?;
    check_ok(syncfs, "syncfs dir")?;
    check_ok(close, "close")?;
    Ok(())
}

/// `sync` then `syncfs` succeed.
pub fn sync_then_syncfs(
    tmp: Sys,
    create: TestResult,
    open: Sys,
    sync: Sys,
    syncfs: Sys,
    close: Sys,
) -> (r: TestResult)
    ensures
        r == guard(ok(tmp, "tempdir"), guard(nested(create), guard(ok(open, "open"),
            guard(ok(sync, "sync"), guard(ok(syncfs, "syncfs"),
            guard(ok(close, "close"), passed())))))),
{
    check_ok(tmp, "tempdir")?;
    create?;
    check_ok(open, "open")?;
    check_ok(sync, "sync")?;
    check_ok(syncfs, "syncfs")?;
    check_ok(close, "close")?;
    Ok(())
}

/// `syncfs` on an empty file succeeds.
pub fn syncfs_empty_file(
    tmp: Sys,
    create: TestResult,
    open: Sys,
    syncfs: Sys,
    close: Sys,
) -> (r: TestResult)
    ensures
        r == guard(ok(tmp, "tempdir"), guard(nested(create), guard(ok(open, "open"),
            guard(ok(syncfs, "syncfs"), guard(ok(close, "close"), passed()))))),
{
    check_ok(tmp, "tempdir")?;
    create?;
    check_ok(open, "open")?;
    check_ok(syncfs, "syncfs")?;
    check_ok(close, "close")?;
    Ok(())
}

} // verus!
