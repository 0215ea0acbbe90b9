//! `sendmsg`/`recvmsg` with `SCM_RIGHTS` descriptor passing, and the
//! control-message bytes that carry one descriptor.

use vstd::prelude::*;
use vstd::string::StringSliceAdditionalSpecFns;
use crate::bytes::{bytes_eq, le_u32};
use crate::harness::{Sys, SysVal, TestResult, check, check_ok, guard, ok, passed, that};

verus! {

/// `SOL_SOCKET`, the level of a socket-layer control message.
pub const SOL_SOCKET: i32 = 1;

/// `SCM_RIGHTS`, the type of a control message that carries descriptors.
pub const SCM_RIGHTS: i32 = 1;

/// The size of a control-message header (`cmsg_len` as a `usize`, then
/// level and type as `i32`), already aligned.
pub const CMSG_HDR: usize = 16;

/// `CMSG_LEN(sizeof(int))`: header and one descriptor.
pub const CMSG_LEN_FD: usize = 20;

/// `CMSG_SPACE(sizeof(int))`: header and one descriptor, padded to eight.
pub const CMSG_SPACE_FD: usize = 24;

/// The four little-endian bytes of `v`.
pub open spec fn le_bytes32(v: u32) -> Seq<u8> {
    seq![(v % 256) as u8, ((v / 256) % 256) as u8, ((v / 65536) % 256) as u8, ((v / 16777216)
        % 256) as u8]
}

/// The control message that passes descriptor `fd`: `cmsg_len` 20 as an
/// eight-byte word, level `SOL_SOCKET`, type `SCM_RIGHTS`, the descriptor,
/// and four bytes of padding.
pub open spec fn scm_rights_control(fd: i32) -> Seq<u8> {
    le_bytes32(CMSG_LEN_FD as u32) + le_bytes32(0) + le_bytes32(SOL_SOCKET as u32) + le_bytes32(
        SCM_RIGHTS as u32,
    ) + le_bytes32(fd as u32) + le_bytes32(0)
}

/// The descriptor that the first `controllen` bytes of control data `c`
/// carry: one only when a whole header is there, with level `SOL_SOCKET`
/// and type `SCM_RIGHTS`, followed by a whole descriptor.
pub open spec fn spec_take_scm_rights(c: Seq<u8>, controllen: int) -> Option<i32> {
    if controllen < CMSG_HDR {
        None
    } else if le_u32(c.subrange(8, 12)) as i32 != SOL_SOCKET || le_u32(c.subrange(12, 16)) as i32
        != SCM_RIGHTS {
        None
    } else if controllen < CMSG_HDR + 4 {
        None
    } else {
        Some(le_u32(c.subrange(16, 20)) as i32)
    }
}

fn put_le32(buf: &mut [u8], at: usize, v: u32)
    requires
        at + 4 <= old(buf)@.len(),
    ensures
        final(buf)@.len() == old(buf)@.len(),
        final(buf)@.subrange(at as int, at + 4) == le_bytes32(v),
        forall|i: int| 0 <= i < old(buf)@.len() && !(at <= i < at + 4) ==> final(buf)@[i] == old(
            buf,
        )@[i],
{
    assert((v & 0xff) as u8 == (v % 256) as u8) by (bit_vector);
    assert(((v >> 8) & 0xff) as u8 == ((v / 256) % 256) as u8) by (bit_vector);
    assert(((v >> 16) & 0xff) as u8 == ((v / 65536) % 256) as u8) by (bit_vector);
    assert(((v >> 24) & 0xff) as u8 == ((v / 16777216) % 256) as u8) by (bit_vector);
    buf[at] = (v & 0xff) as u8;
    buf[at + 1] = ((v >> 8) & 0xff) as u8;
    buf[at + 2] = ((v >> 16) & 0xff) as u8;
    buf[at + 3] = ((v >> 24) & 0xff) as u8;
    assert(buf@.subrange(at as int, at + 4) =~= le_bytes32(v));
}

/// Writes the control message that passes `fd` (`scm_rights_control`) at
/// the start of `cbuf` and gives its size, `CMSG_SPACE(sizeof(int))`.
pub fn put_scm_rights(cbuf: &mut [u8], fd: i32) -> (n: usize)
    requires
        old(cbuf)@.len() >= CMSG_SPACE_FD,
    ensures
        n == CMSG_SPACE_FD,
        final(cbuf)@.len() == old(cbuf)@.len(),
        final(cbuf)@.subrange(0, CMSG_SPACE_FD as int) == scm_rights_control(fd),
        final(cbuf)@.subrange(CMSG_SPACE_FD as int, old(cbuf)@.len() as int) == old(cbuf)@.subrange(
            CMSG_SPACE_FD as int,
            old(cbuf)@.len() as int,
        ),
{
    let ghost orig = cbuf@;
    put_le32(cbuf, 0, CMSG_LEN_FD as u32);
    let ghost s0 = cbuf@;
    put_le32(cbuf, 4, 0);
    let ghost s1 = cbuf@;
    put_le32(cbuf, 8, SOL_SOCKET as u32);
    let ghost s2 = cbuf@;
    put_le32(cbuf, 12, SCM_RIGHTS as u32);
    let ghost s3 = cbuf@;
    put_le32(cbuf, 16, fd as u32);
    let ghost s4 = cbuf@;
    put_le32(cbuf, 20, 0);
    proof {
        let s5 = cbuf@;
        assert forall|i: int| 0 <= i < 4 implies s5[i] == le_bytes32(CMSG_LEN_FD as u32)[i] by {
            assert(s0.subrange(0, 4)[i] == s0[i]);
        }
        assert forall|i: int| 4 <= i < 8 implies s5[i] == le_bytes32(0)[i - 4] by {
            assert(s1.subrange(4, 8)[i - 4] == s1[i]);
        }
        assert forall|i: int| 8 <= i < 12 implies s5[i] == le_bytes32(SOL_SOCKET as u32)[i - 8] by {
            assert(s2.subrange(8, 12)[i - 8] == s2[i]);
        }
        assert forall|i: int| 12 <= i < 16 implies s5[i] == le_bytes32(SCM_RIGHTS as u32)[i - 12] by {
            assert(s3.subrange(12, 16)[i - 12] == s3[i]);
        }
        assert forall|i: int| 16 <= i < 20 implies s5[i] == le_bytes32(fd as u32)[i - 16] by {
            assert(s4.subrange(16, 20)[i - 16] == s4[i]);
        }
        assert forall|i: int| 20 <= i < 24 implies s5[i] == le_bytes32(0)[i - 20] by {
            assert(s5.subrange(20, 24)[i - 20] == s5[i]);
        }
        assert(s5.subrange(0, 24) =~= scm_rights_control(fd));
        assert(s5.subrange(24, orig.len() as int) =~= orig.subrange(24, orig.len() as int));
    }
    CMSG_SPACE_FD
}

fn get_le32(c: &[u8], at: usize) -> (v: u32)
    requires
        at + 4 <= c@.len(),
    ensures
        v == le_u32(c@.subrange(at as int, at + 4)),
{
    let ghost s = c@.subrange(at as int, at + 4);
    assert(s[0] == c@[at as int] && s[1] == c@[at + 1] && s[2] == c@[at + 2] && s[3] == c@[at + 3]);
    c[at] as u32 + (c[at + 1] as u32) * 256 + (c[at + 2] as u32) * 65536 + (c[at + 3] as u32)
        * 16777216
}

/// The descriptor carried by the control data that `recvmsg` returned
/// (see `spec_take_scm_rights`); `controllen` is the length it reported,
/// at most the buffer's.
pub fn take_scm_rights(cbuf: &[u8], controllen: usize) -> (r: Option<i32>)
    requires
        controllen <= cbuf@.len(),
    ensures
        r == spec_take_scm_rights(cbuf@, controllen as int),
{
    if controllen < CMSG_HDR {
        return None;
    }
    let level = get_le32(cbuf, 8) as i32;
    let kind = get_le32(cbuf, 12) as i32;
    if level != SOL_SOCKET || kind != SCM_RIGHTS {
        return None;
    }
    if controllen < CMSG_HDR + 4 {
        return None;
    }
    Some(get_le32(cbuf, 16) as i32)
}

proof fn lemma_le32_roundtrip(v: u32)
    ensures
        le_u32(le_bytes32(v)) == v,
{
    assert((v % 256) as u8 + 256 * ((v / 256) % 256) as u8 + 65536 * ((v / 65536) % 256) as u8
        + 16777216 * ((v / 16777216) % 256) as u8 == v) by (bit_vector);
}

/// A control message written by `put_scm_rights` is read back by
/// `take_scm_rights` as the descriptor it was written with, whatever
/// follows it in the buffer.
pub proof fn lemma_scm_rights_roundtrip(fd: i32, rest: Seq<u8>)
    ensures
        spec_take_scm_rights(scm_rights_control(fd) + rest, CMSG_SPACE_FD as int) == Some(fd),
        spec_take_scm_rights(scm_rights_control(fd) + rest, CMSG_LEN_FD as int) == Some(fd),
{
    let c = scm_rights_control(fd) + rest;
    lemma_le32_roundtrip(1);
    lemma_le32_roundtrip(fd as u32);
    assert(c.subrange(8, 12) =~= le_bytes32(SOL_SOCKET as u32));
    assert(c.subrange(12, 16) =~= le_bytes32(SCM_RIGHTS as u32));
    assert(c.subrange(16, 20) =~= le_bytes32(fd as u32));
    assert((fd as u32) as i32 == fd) by (bit_vector);
}

/// A pipe's read end passed with `SCM_RIGHTS` (the control message of
/// `put_scm_rights`) arrives in the control data `rcbuf` (of which `recvmsg`
/// reported `controllen` bytes) and reads "via-fd" (`payload`: the first
/// six bytes read; `read` is the read of the descriptor received).
pub fn scm_rights_pass_pipe_fd(
    sp: Sys,
    pipe: Sys,
    write: Sys,
    close_pw: Sys,
    send: SysVal,
    close_pr: Sys,
    recv: SysVal,
    dummy: u8,
    rcbuf: &[u8],
    controllen: usize,
    read: SysVal,
    payload: &[u8],
    close_received: Sys,
    close_a: Sys,
    close_b: Sys,
) -> (r: TestResult)
    requires
        controllen <= rcbuf@.len(),
    ensures
        r == guard(ok(sp, "socketpair"), guard(ok(pipe, "pipe2"), guard(ok(write, "write pipe"),
            guard(ok(close_pw, "close pw"), guard(ok(send, "sendmsg"),
            guard(that((send->Ok_0) == 1, "sent"), guard(ok(close_pr, "close original pr"),
            guard(ok(recv, "recvmsg"), guard(that((recv->Ok_0) == 1, "recv"),
            guard(that(dummy == 120, "dummy"), guard(that(controllen > 0, "got control"),
            guard(that((spec_take_scm_rights(rcbuf@, controllen as int)) is Some, "no SCM_RIGHTS"),
            guard(that((spec_take_scm_rights(rcbuf@, controllen as int))->Some_0 >= 0, "fd"),
            guard(ok(read, "read passed fd"), guard(that((read->Ok_0) == 6, "payload len"),
            guard(that(payload@ == "via-fd".spec_bytes(), "payload"),
            guard(ok(close_received, "close received"), guard(ok(close_a, "close a"),
            guard(ok(close_b, "close b"), passed()))))))))))))))))))),
{
    check_ok(sp, "socketpair")?;
    check_ok(pipe, "pipe2")?;
    check_ok(write, "write pipe")?;
    check_ok(close_pw, "close pw")?;
    let s = check_ok(send, "sendmsg")?;
    check(s == 1, "sent")?;
    check_ok(close_pr, "close original pr")?;
    let r = check_ok(recv, "recvmsg")?;
    check(r == 1, "recv")?;
    check(dummy == 120, "dummy")?;
    check(controllen > 0, "got control")?;
    let received = take_scm_rights(rcbuf, controllen);
    check(received.is_some(), "no SCM_RIGHTS")?;
    check(match received { Some(fd) => fd >= 0, None => false }, "fd")?;
    let n = check_ok(read, "read passed fd")?;
    check(n == 6, "payload len")?;
    check(bytes_eq(&payload, "via-fd".as_bytes()), "payload")?;
    check_ok(close_received, "close received")?;
    check_ok(close_a, "close a")?;
    check_ok(close_b, "close b")?;
    Ok(())
}

/// A memfd passed with `SCM_RIGHTS` arrives and reads "mem".
pub fn scm_rights_pass_memfd(
    sp: Sys,
    memfd: Sys,
    write: Sys,
    lseek: Sys,
    send: Sys,
    close_mfd: Sys,
    recv: Sys,
    rcbuf: &[u8],
    controllen: usize,
    read: SysVal,
    payload: &[u8],
    close_received: Sys,
    close_a: Sys,
    close_b: Sys,
) -> (r: TestResult)
    requires
        controllen <= rcbuf@.len(),
    ensures
        r == guard(ok(sp, "socketpair"), guard(ok(memfd, "memfd"), guard(ok(write, "write memfd"),
            guard(ok(lseek, "lseek"), guard(ok(send, "sendmsg"), guard(ok(close_mfd, "close mfd"),
            guard(ok(recv, "recvmsg"),
            guard(that((spec_take_scm_rights(rcbuf@, controllen as int)) is Some, "no SCM_RIGHTS"),
            guard(ok(read, "read"), guard(that((read->Ok_0) == 3, "len"),
            guard(that(payload@ == "mem".spec_bytes(), "data"), guard(ok(close_received, "close"),
            guard(ok(close_a, "close a"), guard(ok(close_b, "close b"), passed())))))))))))))),
{
    check_ok(sp, "socketpair")?;
    check_ok(memfd, "memfd")?;
    check_ok(write, "write memfd")?;
    check_ok(lseek, "lseek")?;
    check_ok(send, "sendmsg")?;
    check_ok(close_mfd, "close mfd")?;
    check_ok(recv, "recvmsg")?;
    let received = take_scm_rights(rcbuf, controllen);
    check(received.is_some(), "no SCM_RIGHTS")?;
    let n = check_ok(read, "read")?;
    check(n == 3, "len")?;
    check(bytes_eq(&payload, "mem".as_bytes()), "data")?;
    check_ok(close_received, "close")?;
    check_ok(close_a, "close a")?;
    check_ok(close_b, "close b")?;
    Ok(())
}

/// Without control data, `sendmsg` and `recvmsg` carry "plain".
pub fn scm_rights_sendmsg_no_control(
    sp: Sys,
    send: SysVal,
    recv: SysVal,
    data: &[u8],
    close_a: Sys,
    close_b: Sys,
) -> (r: TestResult)
    ensures
        r == guard(ok(sp, "socketpair"), guard(ok(send, "sendmsg"),
            guard(that((send->Ok_0) == 5, "sent"), guard(ok(recv, "recvmsg"),
            guard(that((recv->Ok_0) == 5, "recv"),
            guard(that(data@ == "plain".spec_bytes(), "data"), guard(ok(close_a, "close a"),
            guard(ok(close_b, "close b"), passed())))))))),
{
    check_ok(sp, "socketpair")?;
    let s = check_ok(send, "sendmsg")?;
    check(s == 5, "sent")?;
    let r = check_ok(recv, "recvmsg")?;
    check(r == 5, "recv")?;
    check(bytes_eq(&data, "plain".as_bytes()), "data")?;
    check_ok(close_a, "close a")?;
    check_ok(close_b, "close b")?;
    Ok(())
}

} // verus!
