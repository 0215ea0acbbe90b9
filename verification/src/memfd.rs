//! `memfd_create` and the anonymous files it makes.

use vstd::prelude::*;
use vstd::string::StringSliceAdditionalSpecFns;
use crate::abi::{FD_CLOEXEC, F_SEAL_WRITE};
use crate::bytes::bytes_eq;
use crate::harness::{Sys, SysVal, TestResult, check, check_ok, guard, ok, passed, that};

verus! {

/// `memfd_create` gives a descriptor that closes.
pub fn memfd_create_basic(create: SysVal, close: Sys) -> (r: TestResult)
    ensures
        r == guard(ok(create, "create"), guard(that((create->Ok_0) >= 0, "bad fd"),
            guard(ok(close, "close"), passed()))),
{
    let fd = check_ok(create, "create")?;
    check(fd >= 0, "bad fd")?;
    check_ok(close, "close")?;
    Ok(())
}

/// `MFD_CLOEXEC` sets close-on-exec.
pub fn memfd_create_cloexec(create: Sys, getfd: SysVal, close: Sys) -> (r: TestResult)
    ensures
        r == guard(ok(create, "create"), guard(ok(getfd, "F_GETFD"),
            guard(that((getfd->Ok_0) & FD_CLOEXEC != 0, "cloexec"),
            guard(ok(close, "close"), passed())))),
{
    check_ok(create, "create")?;
    let fl = check_ok(getfd, "F_GETFD")?;
    check(fl & FD_CLOEXEC != 0, "cloexec")?;
    check_ok(close, "close")?;
    Ok(())
}

/// "memfd-data" written reads back (`data`: the first ten bytes read).
pub fn memfd_write_read(
    create: Sys,
    write: SysVal,
    seek: Sys,
    read: SysVal,
    data: &[u8],
    close: Sys,
) -> (r: TestResult)
    ensures
        r == guard(ok(create, "create"), guard(ok(write, "write"),
            guard(that((write->Ok_0) == 10, "wlen"), guard(ok(seek, "seek"),
            guard(ok(read, "read"), guard(that((read->Ok_0) == 10, "rlen"),
            guard(that(data@ == "memfd-data".spec_bytes(), "data"),
            guard(ok(close, "close"), passed())))))))),
{
    check_ok(create, "create")?;
    let w = check_ok(write, "write")?;
    check(w == 10, "wlen")?;
    check_ok(seek, "seek")?;
    let r = check_ok(read, "read")?;
    check(r == 10, "rlen")?;
    check(bytes_eq(&data, "memfd-data".as_bytes()), "data")?;
    check_ok(close, "close")?;
    Ok(())
}

/// Truncating up to 4096 gives size 4096 (`size`: `st_size` after).
pub fn memfd_ftruncate_grow(create: Sys, truncate: Sys, size: SysVal, close: Sys) -> (r: TestResult)
    ensures
        r == guard(ok(create, "create"), guard(ok(truncate, "ftruncate"), guard(ok(size, "fstat"),
            guard(that((size->Ok_0) == 4096, "size"), guard(ok(close, "close"), passed()))))),
{
    check_ok(create, "create")?;
    check_ok(truncate, "ftruncate")?;
    let s = check_ok(size, "fstat")?;
    check(s == 4096, "size")?;
    check_ok(close, "close")?;
    Ok(())
}

/// Truncating "0123456789" to 4 leaves "0123".
pub fn memfd_ftruncate_shrink(
    create: Sys,
    write: Sys,
    truncate: Sys,
    seek: Sys,
    read: SysVal,
    data: &[u8],
    close: Sys,
) -> (r: TestResult)
    ensures
        r == guard(ok(create, "create"), guard(ok(write, "write"), guard(ok(truncate, "ftruncate"),
            guard(ok(seek, "seek"), guard(ok(read, "read"), guard(that((read->Ok_0) == 4, "len"),
            guard(that(data@ == "0123".spec_bytes(), "data"),
            guard(ok(close, "close"), passed())))))))),
{
    check_ok(create, "create")?;
    check_ok(write, "write")?;
    check_ok(truncate, "ftruncate")?;
    check_ok(seek, "seek")?;
    let n = check_ok(read, "read")?;
    check(n == 4, "len")?;
    check(bytes_eq(&data, "0123".as_bytes()), "data")?;
    check_ok(close, "close")?;
    Ok(())
}

/// "ABCD" written at offset 100 reads back there.
pub fn memfd_pwrite_pread(
    create: Sys,
    pwrite: Sys,
    pread: Sys,
    buf: &[u8],
    close: Sys,
) -> (r: TestResult)
    ensures
        r == guard(ok(create, "create"), guard(ok(pwrite, "pwrite"), guard(ok(pread, "pread"),
            guard(that(buf@ == "ABCD".spec_bytes(), "data"), guard(ok(close, "close"), passed()))))),
{
    check_ok(create, "create")?;
    check_ok(pwrite, "pwrite")?;
    check_ok(pread, "pread")?;
    check(bytes_eq(&buf, "ABCD".as_bytes()), "data")?;
    check_ok(close, "close")?;
    Ok(())
}

/// A write seal added shows in the seals.
pub fn memfd_seal_write(
    create: Sys,
    write: Sys,
    add: Sys,
    get: SysVal,
    close: Sys,
) -> (r: TestResult)
    ensures
        r == guard(ok(create, "create"), guard(ok(write, "write"), guard(ok(add, "add seal"),
            guard(ok(get, "get seals"), guard(that((get->Ok_0) & F_SEAL_WRITE != 0, "sealed"),
            guard(ok(close, "close"), passed())))))),
{
    check_ok(create, "create")?;
    check_ok(write, "write")?;
    check_ok(add, "add seal")?;
    let s = check_ok(get, "get seals")?;
    check(s & F_SEAL_WRITE != 0, "sealed")?;
    check_ok(close, "close")?;
    Ok(())
}

/// An empty name is accepted.
pub fn memfd_empty_name(create: Sys, close: Sys) -> (r: TestResult)
    ensures
        r == guard(ok(create, "create empty name"), guard(ok(close, "close"), passed())),
{
    check_ok(create, "create empty name")?;
    check_ok(close, "close")?;
    Ok(())
}

/// 512 bytes written give size 512.
pub fn memfd_size_after_write(create: Sys, write: Sys, size: SysVal, close: Sys) -> (r: TestResult)
    ensures
        r == guard(ok(create, "create"), guard(ok(write, "write"), guard(ok(size, "fstat"),
            guard(that((size->Ok_0) == 512, "size"), guard(ok(close, "close"), passed()))))),
{
    check_ok(create, "create")?;
    check_ok(write, "write")?;
    let s = check_ok(size, "fstat")?;
    check(s == 512, "size")?;
    check_ok(close, "close")?;
    Ok(())
}

/// After growing to 8192, "Z" written at the last offset reads back.
pub fn memfd_grow_then_write(
    create: Sys,
    grow: Sys,
    pwrite: Sys,
    pread: Sys,
    byte: u8,
    close: Sys,
) -> (r: TestResult)
    ensures
        r == guard(ok(create, "create"), guard(ok(grow, "grow"), guard(ok(pwrite, "pwrite end"),
            guard(ok(pread, "pread"), guard(that(byte == 90, "byte"),
            guard(ok(close, "close"), passed())))))),
{
    check_ok(create, "create")?;
    check_ok(grow, "grow")?;
    check_ok(pwrite, "pwrite end")?;
    check_ok(pread, "pread")?;
    check(byte == 90, "byte")?;
    check_ok(close, "close")?;
    Ok(())
}

/// A close-on-exec memfd takes a write.
pub fn memfd_cloexec_and_write(create: Sys, write: Sys, close: Sys) -> (r: TestResult)
    ensures
        r == guard(ok(create, "create"), guard(ok(write, "write"),
            guard(ok(close, "close"), passed()))),
{
    check_ok(create, "create")?;
    check_ok(write, "write")?;
    check_ok(close, "close")?;
    Ok(())
}

} // verus!
