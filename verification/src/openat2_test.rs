//! `openat2` with `RESOLVE_NO_SYMLINKS` and `RESOLVE_BENEATH`.

use vstd::prelude::*;
use crate::plan::Act;
use vstd::string::StringSliceAdditionalSpecFns;
use crate::abi::{S_IFMT, S_IFREG};
use crate::bytes::bytes_eq;
use crate::errno::{ELOOP, ENOENT, EPERM, EXDEV};
use crate::harness::{
    Sys, SysVal, TestResult, check, check_err, check_ok, errs, guard, nested, ok, passed, that,
};

verus! {

/// A file holding "ok" opens read-only with `openat2` and reads "ok".
pub fn openat2_rdonly(
    tmp: Sys,
    create: TestResult,
    fill: TestResult,
    open: Sys,
    read: SysVal,
    buf: &[u8],
    close: Sys,
) -> (r: TestResult)
    ensures
        r == guard(ok(tmp, "tempdir"), guard(nested(create), guard(nested(fill),
            guard(ok(open, "openat2"), guard(ok(read, "read"),
            guard(that((read->Ok_0) == 2, "len"), guard(that(buf@ == "ok".spec_bytes(), "data"),
            guard(ok(close, "close"), passed())))))))),
{
    check_ok(tmp, "tempdir")?;
    create?;
    fill?;
    check_ok(open, "openat2")?;
    let n = check_ok(read, "read")?;
    check(n == 2, "len")?;
    check(bytes_eq(&buf, "ok".as_bytes()), "data")?;
    check_ok(close, "close")?;
    Ok(())
}

/// `O_CREAT|O_EXCL` creates a regular file (`stat`: its `st_mode`).
pub fn openat2_creat(
    tmp: Sys,
    path: TestResult,
    create: Sys,
    write: Sys,
    close: Sys,
    stat: SysVal,
) -> (r: TestResult)
    ensures
        r == guard(ok(tmp, "tempdir"), guard(nested(path), guard(ok(create, "creat"),
            guard(ok(write, "write"), guard(ok(close, "close"), guard(ok(stat, "stat"),
            guard(that((stat->Ok_0) & S_IFMT == S_IFREG, "reg"), passed()))))))),
{
    check_ok(tmp, "tempdir")?;
    path?;
    check_ok(create, "creat")?;
    check_ok(write, "write")?;
    check_ok(close, "close")?;
    let m = check_ok(stat, "stat")?;
    check(m & S_IFMT == S_IFREG, "reg")?;
    Ok(())
}

/// `RESOLVE_NO_SYMLINKS` refuses a symlink with ELOOP.
pub fn openat2_resolve_no_symlinks(
    tmp: Sys,
    create: TestResult,
    path: TestResult,
    symlink: Sys,
    open: Sys,
) -> (r: TestResult)
    ensures
        r == guard(ok(tmp, "tempdir"), guard(nested(create), guard(nested(path),
            guard(ok(symlink, "symlink"), guard(errs(open, ELOOP, "no symlinks"), passed()))))),
{
    check_ok(tmp, "tempdir")?;
    create?;
    path?;
    check_ok(symlink, "symlink")?;
    check_err(open, ELOOP, "no symlinks")?;
    Ok(())
}

/// `RESOLVE_BENEATH` refuses `..` with EXDEV, ENOENT or EPERM.
pub fn openat2_resolve_beneath_escape(
    tmp: Sys,
    mkdir: TestResult,
    opendir: Sys,
    open: Sys,
    close: Sys,
    rmdir: Sys,
) -> (r: TestResult)
    ensures
        r == guard(ok(tmp, "tempdir"), guard(nested(mkdir), guard(ok(opendir, "opendir"),
            guard(that(open is Err, "RESOLVE_BENEATH allowed escape"),
            guard(that(open->Err_0.0 == EXDEV || open->Err_0.0 == ENOENT || open->Err_0.0 == EPERM, "unexpected beneath errno"),
            guard(ok(close, "close"), guard(ok(rmdir, "rmdir"), passed()))))))),
{
    check_ok(tmp, "tempdir")?;
    mkdir?;
    check_ok(opendir, "opendir")?;
    check(open.is_err(), "RESOLVE_BENEATH allowed escape")?;
    check(match open { Err(e) => e.0 == EXDEV || e.0 == ENOENT || e.0 == EPERM, Ok(_) => true }, "unexpected beneath errno")?;
    check_ok(close, "close")?;
    check_ok(rmdir, "rmdir")?;
    Ok(())
}

/// The call `openat2_resolve_beneath_escape` makes besides its checks: when
/// the escape opened, it closes the descriptor it got before the test
/// fails.
pub fn beneath_escape_cleanup(escape: SysVal) -> (acts: Vec<Act>)
    ensures
        acts@ == (match escape { Ok(fd) => seq![Act::Close(fd)], Err(_) => Seq::<Act>::empty() }),
{
    match escape {
        Ok(fd) => vec![Act::Close(fd)],
        Err(_) => vec![],
    }
}

/// `RESOLVE_BENEATH` opens a file in the directory itself, which reads "z".
pub fn openat2_beneath_same_dir_ok(
    tmp: Sys,
    mkdir: TestResult,
    path: TestResult,
    create: Sys,
    write: Sys,
    close_create: Sys,
    opendir: Sys,
    open: Sys,
    read: SysVal,
    byte: u8,
    close: Sys,
    close_dir: Sys,
    unlink: Sys,
    rmdir: Sys,
) -> (r: TestResult)
    ensures
        r == guard(ok(tmp, "tempdir"), guard(nested(mkdir), guard(nested(path),
            guard(ok(create, "creat"), guard(ok(write, "write"),
            guard(ok(close_create, "close create"), guard(ok(opendir, "opendir"),
            guard(ok(open, "beneath open"), guard(ok(read, "read"),
            guard(that((read->Ok_0) == 1, "len"), guard(that(byte == 122, "byte"),
            guard(ok(close, "close"), guard(ok(close_dir, "close dir"), guard(ok(unlink, "unlink"),
            guard(ok(rmdir, "rmdir"), passed()))))))))))))))),
{
    check_ok(tmp, "tempdir")?;
    mkdir?;
    path?;
    check_ok(create, "creat")?;
    check_ok(write, "write")?;
    check_ok(close_create, "close create")?;
    check_ok(opendir, "opendir")?;
    check_ok(open, "beneath open")?;
    let n = check_ok(read, "read")?;
    check(n == 1, "len")?;
    check(byte == 122, "byte")?;
    check_ok(close, "close")?;
    check_ok(close_dir, "close dir")?;
    check_ok(unlink, "unlink")?;
    check_ok(rmdir, "rmdir")?;
    Ok(())
}

} // verus!
