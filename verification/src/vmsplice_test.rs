//! `vmsplice` of user buffers into a pipe.

use vstd::prelude::*;
use vstd::string::StringSliceAdditionalSpecFns;
use crate::bytes::bytes_eq;
use crate::harness::{Sys, SysVal, TestResult, check, check_ok, guard, ok, passed, that};

verus! {

/// The bytes 0, 1, 2, ... up to `n - 1`.
pub open spec fn counting(n: nat) -> Seq<u8> {
    Seq::new(n, |i: int| i as u8)
}

/// Builds `counting(n)`.
pub fn make_counting(n: usize) -> (v: Vec<u8>)
    requires
        n <= 256,
    ensures
        v@ == counting(n as nat),
{
    let mut v: Vec<u8> = Vec::new();
    let mut i: usize = 0;
    while i < n
        invariant
            i <= n <= 256,
            v@.len() == i,
            forall|j: int| 0 <= j < i ==> v@[j] == j as u8,
        decreases n - i,
    {
        v.push(i as u8);
        i = i + 1;
    }
    assert(v@ =~= counting(n as nat));
    v
}

/// Whether `buf` is `counting` of its length.
pub fn is_counting(buf: &[u8]) -> (r: bool)
    ensures
        r == (buf@ == counting(buf@.len())),
{
    let mut i: usize = 0;
    while i < buf.len()
        invariant
            i <= buf@.len(),
            forall|j: int| 0 <= j < i ==> buf@[j] == j as u8,
        decreases buf.len() - i,
    {
        if buf[i] != i as u8 {
            assert(buf@[i as int] != counting(buf@.len())[i as int]);
            return false;
        }
        i = i + 1;
    }
    assert(buf@ =~= counting(buf@.len()));
    true
}

/// "vmsplice-payload" spliced into a pipe reads back.
pub fn vmsplice_into_pipe(
    pipe: Sys,
    splice: SysVal,
    close_w: Sys,
    read: SysVal,
    data: &[u8],
    close_r: Sys,
) -> (r: TestResult)
    ensures
        r == guard(ok(pipe, "pipe2"), guard(ok(splice, "vmsplice"),
            guard(that((splice->Ok_0) == 16, "spliced"), guard(ok(close_w, "close w"),
            guard(ok(read, "read"), guard(that((read->Ok_0) == 16, "rlen"),
            guard(that(data@ == "vmsplice-payload".spec_bytes(), "data"),
            guard(ok(close_r, "close r"), passed())))))))),
{
    check_ok(pipe, "pipe2")?;
    let n = check_ok(splice, "vmsplice")?;
    check(n == 16, "spliced")?;
    check_ok(close_w, "close w")?;
    let r = check_ok(read, "read")?;
    check(r == 16, "rlen")?;
    check(bytes_eq(&data, "vmsplice-payload".as_bytes()), "data")?;
    check_ok(close_r, "close r")?;
    Ok(())
}

/// "hello" and "-world" spliced together read back as "hello-world".
pub fn vmsplice_multi_iovec(
    pipe: Sys,
    splice: SysVal,
    close_w: Sys,
    read: SysVal,
    data: &[u8],
    close_r: Sys,
) -> (r: TestResult)
    ensures
        r == guard(ok(pipe, "pipe2"), guard(ok(splice, "vmsplice"),
            guard(that((splice->Ok_0) == 11, "total"), guard(ok(close_w, "close w"),
            guard(ok(read, "read"), guard(that((read->Ok_0) == 11, "rlen"),
            guard(that(data@ == "hello-world".spec_bytes(), "concat"),
            guard(ok(close_r, "close r"), passed())))))))),
{
    check_ok(pipe, "pipe2")?;
    let n = check_ok(splice, "vmsplice")?;
    check(n == 11, "total")?;
    check_ok(close_w, "close w")?;
    let r = check_ok(read, "read")?;
    check(r == 11, "rlen")?;
    check(bytes_eq(&data, "hello-world".as_bytes()), "concat")?;
    check_ok(close_r, "close r")?;
    Ok(())
}

/// An empty vector splices nothing.
pub fn vmsplice_empty_iov(pipe: Sys, splice: SysVal, close_w: Sys, close_r: Sys) -> (r: TestResult)
    ensures
        r == guard(ok(pipe, "pipe2"), guard(ok(splice, "vmsplice empty"),
            guard(that((splice->Ok_0) == 0, "zero"), guard(ok(close_w, "close w"),
            guard(ok(close_r, "close r"), passed()))))),
{
    check_ok(pipe, "pipe2")?;
    let n = check_ok(splice, "vmsplice empty")?;
    check(n == 0, "zero")?;
    check_ok(close_w, "close w")?;
    check_ok(close_r, "close r")?;
    Ok(())
}

/// The 64 bytes 0..63 (`make_counting`) spliced read back.
pub fn vmsplice_partial_then_read(
    pipe: Sys,
    splice: SysVal,
    close_w: Sys,
    read: SysVal,
    buf: &[u8],
    close_r: Sys,
) -> (r: TestResult)
    ensures
        r == guard(ok(pipe, "pipe2"), guard(ok(splice, "vmsplice"),
            guard(that((splice->Ok_0) == 64, "n"), guard(ok(close_w, "close w"),
            guard(ok(read, "read"), guard(that((read->Ok_0) == 64, "rlen"),
            guard(that(buf@.len() == 64 && buf@ == counting(64), "bytes"),
            guard(ok(close_r, "close r"), passed())))))))),
{
    check_ok(pipe, "pipe2")?;
    let n = check_ok(splice, "vmsplice")?;
    check(n == 64, "n")?;
    check_ok(close_w, "close w")?;
    let r = check_ok(read, "read")?;
    check(r == 64, "rlen")?;
    check(buf.len() == 64 && is_counting(buf), "bytes")?;
    check_ok(close_r, "close r")?;
    Ok(())
}

} // verus!
