//! `sendfile`, `splice`, `tee` and `copy_file_range`.

use vstd::prelude::*;
use vstd::string::StringSliceAdditionalSpecFns;
use crate::bytes::bytes_eq;
use crate::harness::{
    AssertFail, Sys, SysVal, TestResult, check, check_ok, guard, nested, ok, passed, that,
};
use crate::spawn_ipc::{prefix_eq, starts_with};

verus! {

/// Whether the first `n` bytes of `buf` are `want`.
pub fn head_is(buf: &[u8], n: usize, want: &[u8]) -> (r: bool)
    requires
        n <= buf@.len(),
    ensures
        r == (buf@.subrange(0, n as int) == want@),
{
    bytes_eq(vstd::slice::slice_subrange(buf, 0, n), want)
}

/// Whether the first `n` bytes of `a` and `b` agree.
pub fn same_head(a: &[u8], b: &[u8], n: usize) -> (r: bool)
    requires
        n <= a@.len(),
        n <= b@.len(),
    ensures
        r == (a@.subrange(0, n as int) == b@.subrange(0, n as int)),
{
    bytes_eq(vstd::slice::slice_subrange(a, 0, n), vstd::slice::slice_subrange(b, 0, n))
}

/// A temporary file with the given contents, opened for reading.
pub fn make_data_file(path: TestResult, fill: TestResult, open: Sys) -> (r: TestResult)
    ensures
        r == guard(nested(path), guard(nested(fill), guard(ok(open, "open in"), passed()))),
{
    path?;
    fill?;
    check_ok(open, "open in")?;
    Ok(())
}

/// `sendfile` copies "sendfile-payload-12345" into another file (`read`: the
/// count `read_file` gave, `buf` its buffer).
pub fn sendfile_file_to_file(
    tmp: Sys,
    input: TestResult,
    out_path: TestResult,
    open_out: Sys,
    send: SysVal,
    close_in: Sys,
    close_out: Sys,
    read: Result<usize, AssertFail>,
    buf: &[u8],
) -> (r: TestResult)
    ensures
        r == guard(ok(tmp, "tempdir"), guard(nested(input), guard(nested(out_path),
            guard(ok(open_out, "open out"), guard(ok(send, "sendfile"),
            guard(that((send->Ok_0) == 22, "copied"), guard(ok(close_in, "close in"),
            guard(ok(close_out, "close out"), guard(nested(read),
            guard(that(read->Ok_0 == 22, "out len"),
            guard(that(starts_with(buf@, "sendfile-payload-12345".spec_bytes()), "out data"), passed()))))))))))),
{
    check_ok(tmp, "tempdir")?;
    input?;
    out_path?;
    check_ok(open_out, "open out")?;
    let n = check_ok(send, "sendfile")?;
    check(n == 22, "copied")?;
    check_ok(close_in, "close in")?;
    check_ok(close_out, "close out")?;
    let rn = read?;
    check(rn == 22, "out len")?;
    check(prefix_eq(buf, "sendfile-payload-12345".as_bytes()), "out data")?;
    Ok(())
}

/// `sendfile` copies "pipe-via-sendfile" into a pipe.
pub fn sendfile_file_to_pipe(
    tmp: Sys,
    input: TestResult,
    pipe: Sys,
    send: SysVal,
    close_w: Sys,
    close_in: Sys,
    read: SysVal,
    buf: &[u8],
    close_r: Sys,
) -> (r: TestResult)
    ensures
        r == guard(ok(tmp, "tempdir"), guard(nested(input), guard(ok(pipe, "pipe2"),
            guard(ok(send, "sendfile"), guard(that((send->Ok_0) == 17, "copied"),
            guard(ok(close_w, "close w"), guard(ok(close_in, "close in"), guard(ok(read, "read"),
            guard(that((read->Ok_0) == 17, "rlen"),
            guard(that(starts_with(buf@, "pipe-via-sendfile".spec_bytes()), "data"),
            guard(ok(close_r, "close r"), passed()))))))))))),
{
    check_ok(tmp, "tempdir")?;
    input?;
    check_ok(pipe, "pipe2")?;
    let n = check_ok(send, "sendfile")?;
    check(n == 17, "copied")?;
    check_ok(close_w, "close w")?;
    check_ok(close_in, "close in")?;
    let r = check_ok(read, "read")?;
    check(r == 17, "rlen")?;
    check(prefix_eq(buf, "pipe-via-sendfile".as_bytes()), "data")?;
    check_ok(close_r, "close r")?;
    Ok(())
}

/// `sendfile` of four bytes copies "0123".
pub fn sendfile_partial(
    tmp: Sys,
    input: TestResult,
    pipe: Sys,
    send: SysVal,
    close_w: Sys,
    close_in: Sys,
    read: SysVal,
    buf: &[u8],
    close_r: Sys,
) -> (r: TestResult)
    ensures
        r == guard(ok(tmp, "tempdir"), guard(nested(input), guard(ok(pipe, "pipe2"),
            guard(ok(send, "sendfile"), guard(that((send->Ok_0) == 4, "partial"),
            guard(ok(close_w, "close w"), guard(ok(close_in, "close in"), guard(ok(read, "read"),
            guard(that((read->Ok_0) == 4, "rlen"),
            guard(that(starts_with(buf@, "0123".spec_bytes()), "partial data"),
            guard(ok(close_r, "close r"), passed()))))))))))),
{
    check_ok(tmp, "tempdir")?;
    input?;
    check_ok(pipe, "pipe2")?;
    let n = check_ok(send, "sendfile")?;
    check(n == 4, "partial")?;
    check_ok(close_w, "close w")?;
    check_ok(close_in, "close in")?;
    let r = check_ok(read, "read")?;
    check(r == 4, "rlen")?;
    check(prefix_eq(buf, "0123".as_bytes()), "partial data")?;
    check_ok(close_r, "close r")?;
    Ok(())
}

/// `sendfile` from offset 3 copies "DEF" and moves the offset to 6.
pub fn sendfile_with_offset(
    tmp: Sys,
    input: TestResult,
    pipe: Sys,
    send: SysVal,
    offset: i64,
    close_w: Sys,
    close_in: Sys,
    read: SysVal,
    buf: &[u8],
    close_r: Sys,
) -> (r: TestResult)
    ensures
        r == guard(ok(tmp, "tempdir"), guard(nested(input), guard(ok(pipe, "pipe2"),
            guard(ok(send, "sendfile"), guard(that((send->Ok_0) == 3, "n"),
            guard(that(offset == 6, "off advanced"), guard(ok(close_w, "close w"),
            guard(ok(close_in, "close in"), guard(ok(read, "read"),
            guard(that((read->Ok_0) == 3, "rlen"),
            guard(that(starts_with(buf@, "DEF".spec_bytes()), "data"),
            guard(ok(close_r, "close r"), passed())))))))))))),
{
    check_ok(tmp, "tempdir")?;
    input?;
    check_ok(pipe, "pipe2")?;
    let n = check_ok(send, "sendfile")?;
    check(n == 3, "n")?;
    check(offset == 6, "off advanced")?;
    check_ok(close_w, "close w")?;
    check_ok(close_in, "close in")?;
    let r = check_ok(read, "read")?;
    check(r == 3, "rlen")?;
    check(prefix_eq(buf, "DEF".as_bytes()), "data")?;
    check_ok(close_r, "close r")?;
    Ok(())
}

/// `splice` moves bytes of "splice-pipe-data" from one pipe to another (the
/// bytes read are a prefix of it; a read can return no more than was
/// spliced).
pub fn splice_pipe_to_pipe(
    pipe1: Sys,
    pipe2: Sys,
    write: Sys,
    close_w1: Sys,
    splice: SysVal,
    close_w2: Sys,
    close_r1: Sys,
    read: SysVal,
    buf: &[u8],
    close_r2: Sys,
) -> (r: TestResult)
    requires
        read is Ok ==> 0 <= read->Ok_0 <= 16 && read->Ok_0 <= buf@.len(),
    ensures
        r == guard(ok(pipe1, "pipe1"), guard(ok(pipe2, "pipe2"), guard(ok(write, "write"),
            guard(ok(close_w1, "close w1"), guard(ok(splice, "splice"),
            guard(that((splice->Ok_0) > 0, "spliced"), guard(ok(close_w2, "close w2"),
            guard(ok(close_r1, "close r1"), guard(ok(read, "read"),
            guard(that(buf@.subrange(0, (read->Ok_0) as int) == "splice-pipe-data".spec_bytes().subrange(0, (read->Ok_0) as int), "data"),
            guard(ok(close_r2, "close r2"), passed()))))))))))),
{
    check_ok(pipe1, "pipe1")?;
    check_ok(pipe2, "pipe2")?;
    check_ok(write, "write")?;
    check_ok(close_w1, "close w1")?;
    let n = check_ok(splice, "splice")?;
    check(n > 0, "spliced")?;
    check_ok(close_w2, "close w2")?;
    check_ok(close_r1, "close r1")?;
    let r = check_ok(read, "read")?;
    proof { reveal_strlit("splice-pipe-data"); vstd::string::is_ascii_spec_bytes("splice-pipe-data"); }
    check(same_head(buf, "splice-pipe-data".as_bytes(), r as usize), "data")?;
    check_ok(close_r2, "close r2")?;
    Ok(())
}

/// `splice` copies bytes of "file-to-pipe-splice" from a file into a pipe.
pub fn splice_file_to_pipe(
    tmp: Sys,
    input: TestResult,
    pipe: Sys,
    splice: SysVal,
    close_w: Sys,
    close_in: Sys,
    read: SysVal,
    buf: &[u8],
    close_r: Sys,
) -> (r: TestResult)
    requires
        read is Ok ==> 0 <= read->Ok_0 <= 19 && read->Ok_0 <= buf@.len(),
    ensures
        r == guard(ok(tmp, "tempdir"), guard(nested(input), guard(ok(pipe, "pipe2"),
            guard(ok(splice, "splice"), guard(that((splice->Ok_0) > 0, "spliced"),
            guard(ok(close_w, "close w"), guard(ok(close_in, "close in"), guard(ok(read, "read"),
            guard(that(buf@.subrange(0, (read->Ok_0) as int) == "file-to-pipe-splice".spec_bytes().subrange(0, (read->Ok_0) as int), "data"),
            guard(ok(close_r, "close r"), passed())))))))))),
{
    check_ok(tmp, "tempdir")?;
    input?;
    check_ok(pipe, "pipe2")?;
    let n = check_ok(splice, "splice")?;
    check(n > 0, "spliced")?;
    check_ok(close_w, "close w")?;
    check_ok(close_in, "close in")?;
    let r = check_ok(read, "read")?;
    proof { reveal_strlit("file-to-pipe-splice"); vstd::string::is_ascii_spec_bytes("file-to-pipe-splice"); }
    check(same_head(buf, "file-to-pipe-splice".as_bytes(), r as usize), "data")?;
    check_ok(close_r, "close r")?;
    Ok(())
}

/// `splice` copies "pipe-to-file-splice" from a pipe into a file.
pub fn splice_pipe_to_file(
    tmp: Sys,
    pipe: Sys,
    write: Sys,
    close_w: Sys,
    out_path: TestResult,
    open_out: Sys,
    splice: SysVal,
    close_r: Sys,
    close_out: Sys,
    read: Result<usize, AssertFail>,
    buf: &[u8],
) -> (r: TestResult)
    requires
        read is Ok ==> read->Ok_0 <= buf@.len(),
    ensures
        r == guard(ok(tmp, "tempdir"), guard(ok(pipe, "pipe2"), guard(ok(write, "write"),
            guard(ok(close_w, "close w"), guard(nested(out_path), guard(ok(open_out, "open out"),
            guard(ok(splice, "splice"), guard(that((splice->Ok_0) > 0, "spliced"),
            guard(ok(close_r, "close r"), guard(ok(close_out, "close out"), guard(nested(read),
            guard(that(buf@.subrange(0, read->Ok_0 as int) == "pipe-to-file-splice".spec_bytes(), "file data"), passed())))))))))))),
{
    check_ok(tmp, "tempdir")?;
    check_ok(pipe, "pipe2")?;
    check_ok(write, "write")?;
    check_ok(close_w, "close w")?;
    out_path?;
    check_ok(open_out, "open out")?;
    let n = check_ok(splice, "splice")?;
    check(n > 0, "spliced")?;
    check_ok(close_r, "close r")?;
    check_ok(close_out, "close out")?;
    let rn = read?;
    check(head_is(buf, rn, "pipe-to-file-splice".as_bytes()), "file data")?;
    Ok(())
}

/// `copy_file_range` copies "copy_file_range_payload" whole.
pub fn copy_file_range_basic(
    tmp: Sys,
    input: TestResult,
    out_path: TestResult,
    open_out: Sys,
    copy: SysVal,
    close_in: Sys,
    close_out: Sys,
    read: Result<usize, AssertFail>,
    buf: &[u8],
) -> (r: TestResult)
    requires
        read is Ok ==> read->Ok_0 <= buf@.len(),
    ensures
        r == guard(ok(tmp, "tempdir"), guard(nested(input), guard(nested(out_path),
            guard(ok(open_out, "open out"), guard(ok(copy, "cfr"),
            guard(that((copy->Ok_0) == 23, "copied"), guard(ok(close_in, "close in"),
            guard(ok(close_out, "close out"), guard(nested(read),
            guard(that(buf@.subrange(0, read->Ok_0 as int) == "copy_file_range_payload".spec_bytes(), "out"), passed())))))))))),
{
    check_ok(tmp, "tempdir")?;
    input?;
    out_path?;
    check_ok(open_out, "open out")?;
    let n = check_ok(copy, "cfr")?;
    check(n == 23, "copied")?;
    check_ok(close_in, "close in")?;
    check_ok(close_out, "close out")?;
    let rn = read?;
    check(head_is(buf, rn, "copy_file_range_payload".as_bytes()), "out")?;
    Ok(())
}

/// `copy_file_range` of six bytes from offset 4 of "0123456789ABCDEF"
/// copies "456789".
pub fn copy_file_range_partial(
    tmp: Sys,
    input: TestResult,
    out_path: TestResult,
    open_out: Sys,
    copy: SysVal,
    close_in: Sys,
    close_out: Sys,
    read: Result<usize, AssertFail>,
    buf: &[u8],
) -> (r: TestResult)
    requires
        read is Ok ==> read->Ok_0 <= buf@.len(),
    ensures
        r == guard(ok(tmp, "tempdir"), guard(nested(input), guard(nested(out_path),
            guard(ok(open_out, "open out"), guard(ok(copy, "cfr"),
            guard(that((copy->Ok_0) == 6, "n"), guard(ok(close_in, "close in"),
            guard(ok(close_out, "close out"), guard(nested(read),
            guard(that(buf@.subrange(0, read->Ok_0 as int) == "456789".spec_bytes(), "partial"), passed())))))))))),
{
    check_ok(tmp, "tempdir")?;
    input?;
    out_path?;
    check_ok(open_out, "open out")?;
    let n = check_ok(copy, "cfr")?;
    check(n == 6, "n")?;
    check_ok(close_in, "close in")?;
    check_ok(close_out, "close out")?;
    let rn = read?;
    check(head_is(buf, rn, "456789".as_bytes()), "partial")?;
    Ok(())
}

/// `copy_file_range` with the descriptors' own offsets copies
/// "fd-to-fd-copy".
pub fn copy_file_range_fd_to_fd(
    tmp: Sys,
    input: TestResult,
    out_path: TestResult,
    open_out: Sys,
    copy: SysVal,
    close_in: Sys,
    seek: Sys,
    read: SysVal,
    buf: &[u8],
    close_out: Sys,
) -> (r: TestResult)
    ensures
        r == guard(ok(tmp, "tempdir"), guard(nested(input), guard(nested(out_path),
            guard(ok(open_out, "open out"), guard(ok(copy, "cfr"),
            guard(that((copy->Ok_0) == 13, "n"), guard(ok(close_in, "close in"),
            guard(ok(seek, "seek"), guard(ok(read, "read"), guard(that((read->Ok_0) == 13, "rlen"),
            guard(that(starts_with(buf@, "fd-to-fd-copy".spec_bytes()), "data"),
            guard(ok(close_out, "close out"), passed())))))))))))),
{
    check_ok(tmp, "tempdir")?;
    input?;
    out_path?;
    check_ok(open_out, "open out")?;
    let n = check_ok(copy, "cfr")?;
    check(n == 13, "n")?;
    check_ok(close_in, "close in")?;
    check_ok(seek, "seek")?;
    let r = check_ok(read, "read")?;
    check(r == 13, "rlen")?;
    check(prefix_eq(buf, "fd-to-fd-copy".as_bytes()), "data")?;
    check_ok(close_out, "close out")?;
    Ok(())
}

/// `sendfile` of zero bytes copies nothing.
pub fn sendfile_zero_count(
    tmp: Sys,
    input: TestResult,
    pipe: Sys,
    send: SysVal,
    close_w: Sys,
    close_in: Sys,
    close_r: Sys,
) -> (r: TestResult)
    ensures
        r == guard(ok(tmp, "tempdir"), guard(nested(input), guard(ok(pipe, "pipe2"),
            guard(ok(send, "sendfile"), guard(that((send->Ok_0) == 0, "zero"),
            guard(ok(close_w, "close w"), guard(ok(close_in, "close in"),
            guard(ok(close_r, "close r"), passed())))))))),
{
    check_ok(tmp, "tempdir")?;
    input?;
    check_ok(pipe, "pipe2")?;
    let n = check_ok(send, "sendfile")?;
    check(n == 0, "zero")?;
    check_ok(close_w, "close w")?;
    check_ok(close_in, "close in")?;
    check_ok(close_r, "close r")?;
    Ok(())
}

/// `tee` copies "tee-payload" into a second pipe and leaves it in the
/// first.
pub fn tee_pipe_to_pipe(
    pipe1: Sys,
    pipe2: Sys,
    write: Sys,
    tee: SysVal,
    read1: SysVal,
    read2: SysVal,
    a: &[u8],
    b: &[u8],
    close_r1: Sys,
    close_w1: Sys,
    close_r2: Sys,
    close_w2: Sys,
) -> (r: TestResult)
    ensures
        r == guard(ok(pipe1, "pipe1"), guard(ok(pipe2, "pipe2"), guard(ok(write, "write"),
            guard(ok(tee, "tee"), guard(that((tee->Ok_0) == 11, "teed"),
            guard(ok(read1, "read r1"), guard(that((read1->Ok_0) == 11, "r1"),
            guard(ok(read2, "read r2"), guard(that((read2->Ok_0) == 11, "r2"),
            guard(that(starts_with(a@, "tee-payload".spec_bytes()), "r1 data"),
            guard(that(starts_with(b@, "tee-payload".spec_bytes()), "r2 data"),
            guard(ok(close_r1, "close r1"), guard(ok(close_w1, "close w1"),
            guard(ok(close_r2, "close r2"), guard(ok(close_w2, "close w2"), passed()))))))))))))))),
{
    check_ok(pipe1, "pipe1")?;
    check_ok(pipe2, "pipe2")?;
    check_ok(write, "write")?;
    let n = check_ok(tee, "tee")?;
    check(n == 11, "teed")?;
    let x = check_ok(read1, "read r1")?;
    check(x == 11, "r1")?;
    let y = check_ok(read2, "read r2")?;
    check(y == 11, "r2")?;
    check(prefix_eq(a, "tee-payload".as_bytes()), "r1 data")?;
    check(prefix_eq(b, "tee-payload".as_bytes()), "r2 data")?;
    check_ok(close_r1, "close r1")?;
    check_ok(close_w1, "close w1")?;
    check_ok(close_r2, "close r2")?;
    check_ok(close_w2, "close w2")?;
    Ok(())
}

/// `tee` of four bytes copies "ABCD" and leaves "ABCDEFGH" whole (`out` and
/// `input`: the buffer after each read).
pub fn tee_partial(
    pipe1: Sys,
    pipe2: Sys,
    write: Sys,
    tee: SysVal,
    read: SysVal,
    out: &[u8],
    read_in: SysVal,
    input: &[u8],
    close_r1: Sys,
    close_w1: Sys,
    close_r2: Sys,
    close_w2: Sys,
) -> (r: TestResult)
    ensures
        r == guard(ok(pipe1, "pipe1"), guard(ok(pipe2, "pipe2"), guard(ok(write, "write"),
            guard(ok(tee, "tee"), guard(that((tee->Ok_0) == 4, "partial"), guard(ok(read, "read"),
            guard(that((read->Ok_0) == 4, "rlen"),
            guard(that(starts_with(out@, "ABCD".spec_bytes()), "prefix"),
            guard(ok(read_in, "read in"), guard(that((read_in->Ok_0) == 8, "full in"),
            guard(that(starts_with(input@, "ABCDEFGH".spec_bytes()), "input intact"),
            guard(ok(close_r1, "close r1"), guard(ok(close_w1, "close w1"),
            guard(ok(close_r2, "close r2"), guard(ok(close_w2, "close w2"), passed()))))))))))))))),
{
    check_ok(pipe1, "pipe1")?;
    check_ok(pipe2, "pipe2")?;
    check_ok(write, "write")?;
    let n = check_ok(tee, "tee")?;
    check(n == 4, "partial")?;
    let r = check_ok(read, "read")?;
    check(r == 4, "rlen")?;
    check(prefix_eq(out, "ABCD".as_bytes()), "prefix")?;
    let ri = check_ok(read_in, "read in")?;
    check(ri == 8, "full in")?;
    check(prefix_eq(input, "ABCDEFGH".as_bytes()), "input intact")?;
    check_ok(close_r1, "close r1")?;
    check_ok(close_w1, "close w1")?;
    check_ok(close_r2, "close r2")?;
    check_ok(close_w2, "close w2")?;
    Ok(())
}

/// `tee` of zero bytes copies nothing.
pub fn tee_zero_len(
    pipe1: Sys,
    pipe2: Sys,
    write: Sys,
    tee: SysVal,
    close_r1: Sys,
    close_w1: Sys,
    close_r2: Sys,
    close_w2: Sys,
) -> (r: TestResult)
    ensures
        r == guard(ok(pipe1, "pipe1"), guard(ok(pipe2, "pipe2"), guard(ok(write, "write"),
            guard(ok(tee, "tee"), guard(that((tee->Ok_0) == 0, "zero"),
            guard(ok(close_r1, "close r1"), guard(ok(close_w1, "close w1"),
            guard(ok(close_r2, "close r2"), guard(ok(close_w2, "close w2"), passed()))))))))),
{
    check_ok(pipe1, "pipe1")?;
    check_ok(pipe2, "pipe2")?;
    check_ok(write, "write")?;
    let n = check_ok(tee, "tee")?;
    check(n == 0, "zero")?;
    check_ok(close_r1, "close r1")?;
    check_ok(close_w1, "close w1")?;
    check_ok(close_r2, "close r2")?;
    check_ok(close_w2, "close w2")?;
    Ok(())
}

} // verus!
