//! `statx` against `fstat`, on empty files, symlinks and directories.

use vstd::prelude::*;
use crate::abi::{S_IFDIR, S_IFLNK, S_IFMT, S_IFREG};
use crate::errno::Errno;
use crate::harness::{Sys, TestResult, check, check_ok, guard, nested, ok, passed, that};

verus! {

/// What the checks read of `statx`.
#[derive(Clone, Copy, Debug, PartialEq, Eq, Structural)]
pub struct StatxInfo {
    pub mode: u16,
    pub size: u64,
    pub ino: u64,
}

/// What the checks read of `fstat`.
#[derive(Clone, Copy, Debug, PartialEq, Eq, Structural)]
pub struct FileStat {
    pub mode: u32,
    pub size: i64,
    pub ino: u64,
}

/// `statx` of a file holding "statx-data" agrees with `fstat` on size,
/// inode and permission bits, and says it is a regular file.
pub fn statx_basic_vs_fstat(
    tmp: Sys,
    create: TestResult,
    fill: TestResult,
    open: Sys,
    fstat: Result<FileStat, Errno>,
    statx: Result<StatxInfo, Errno>,
    close: Sys,
) -> (r: TestResult)
    ensures
        r == guard(ok(tmp, "tempdir"), guard(nested(create), guard(nested(fill),
            guard(ok(open, "open"), guard(ok(fstat, "fstat"), guard(ok(statx, "statx"),
            guard(that(((statx->Ok_0).mode as i64) & S_IFMT == S_IFREG, "reg"),
            guard(that((statx->Ok_0).size == (fstat->Ok_0).size as u64, "size"),
            guard(that((statx->Ok_0).ino == (fstat->Ok_0).ino, "ino"),
            guard(that(((statx->Ok_0).mode as u32) & 0o777 == (fstat->Ok_0).mode & 0o777, "mode"),
            guard(ok(close, "close"), passed()))))))))))),
{
    check_ok(tmp, "tempdir")?;
    create?;
    fill?;
    check_ok(open, "open")?;
    let st = check_ok(fstat, "fstat")?;
    let sx = check_ok(statx, "statx")?;
    check((sx.mode as i64) & S_IFMT == S_IFREG, "reg")?;
    check(sx.size == st.size as u64, "size")?;
    check(sx.ino == st.ino, "ino")?;
    check((sx.mode as u32) & 0o777 == st.mode & 0o777, "mode")?;
    check_ok(close, "close")?;
    Ok(())
}

/// An empty regular file has size 0.
pub fn statx_empty_file(
    tmp: Sys,
    create: TestResult,
    statx: Result<StatxInfo, Errno>,
) -> (r: TestResult)
    ensures
        r == guard(ok(tmp, "tempdir"), guard(nested(create), guard(ok(statx, "statx"),
            guard(that((statx->Ok_0).size == 0, "size"),
            guard(that(((statx->Ok_0).mode as i64) & S_IFMT == S_IFREG, "reg"), passed()))))),
{
    check_ok(tmp, "tempdir")?;
    create?;
    let sx = check_ok(statx, "statx")?;
    check(sx.size == 0, "size")?;
    check((sx.mode as i64) & S_IFMT == S_IFREG, "reg")?;
    Ok(())
}

/// Through a symlink to a six-byte file `statx` sees the file; with
/// `AT_SYMLINK_NOFOLLOW` it sees the link, whose size is the six bytes of
/// "target".
pub fn statx_symlink_nofollow(
    tmp: Sys,
    create: TestResult,
    fill: TestResult,
    path: TestResult,
    symlink: Sys,
    follow: Result<StatxInfo, Errno>,
    nofollow: Result<StatxInfo, Errno>,
) -> (r: TestResult)
    ensures
        r == guard(ok(tmp, "tempdir"), guard(nested(create), guard(nested(fill),
            guard(nested(path), guard(ok(symlink, "symlink"), guard(ok(follow, "statx follow"),
            guard(that(((follow->Ok_0).mode as i64) & S_IFMT == S_IFREG, "followed reg"),
            guard(that((follow->Ok_0).size == 6, "followed size"),
            guard(ok(nofollow, "statx nofollow"),
            guard(that(((nofollow->Ok_0).mode as i64) & S_IFMT == S_IFLNK, "symlink type"),
            guard(that((nofollow->Ok_0).size == 6, "link path len"), passed()))))))))))),
{
    check_ok(tmp, "tempdir")?;
    create?;
    fill?;
    path?;
    check_ok(symlink, "symlink")?;
    let f = check_ok(follow, "statx follow")?;
    check((f.mode as i64) & S_IFMT == S_IFREG, "followed reg")?;
    check(f.size == 6, "followed size")?;
    let l = check_ok(nofollow, "statx nofollow")?;
    check((l.mode as i64) & S_IFMT == S_IFLNK, "symlink type")?;
    check(l.size == 6, "link path len")?;
    Ok(())
}

/// A directory's mode says directory.
pub fn statx_dir(tmp: Sys, statx: Result<StatxInfo, Errno>) -> (r: TestResult)
    ensures
        r == guard(ok(tmp, "tempdir"), guard(ok(statx, "statx dir"),
            guard(that(((statx->Ok_0).mode as i64) & S_IFMT == S_IFDIR, "dir mode"), passed()))),
{
    check_ok(tmp, "tempdir")?;
    let sx = check_ok(statx, "statx dir")?;
    check((sx.mode as i64) & S_IFMT == S_IFDIR, "dir mode")?;
    Ok(())
}

/// Asking only for size and inode gives both for a two-byte file.
pub fn statx_mask_partial(
    tmp: Sys,
    create: TestResult,
    fill: TestResult,
    statx: Result<StatxInfo, Errno>,
) -> (r: TestResult)
    ensures
        r == guard(ok(tmp, "tempdir"), guard(nested(create), guard(nested(fill),
            guard(ok(statx, "statx partial"), guard(that((statx->Ok_0).size == 2, "size"),
            guard(that((statx->Ok_0).ino != 0, "ino"), passed())))))),
{
    check_ok(tmp, "tempdir")?;
    create?;
    fill?;
    let sx = check_ok(statx, "statx partial")?;
    check(sx.size == 2, "size")?;
    check(sx.ino != 0, "ino")?;
    Ok(())
}

} // verus!
