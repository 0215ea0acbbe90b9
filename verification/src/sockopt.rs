//! Socket options, names and unix sockets.

use vstd::prelude::*;
use vstd::string::StringSliceAdditionalSpecFns;
use crate::abi::{SOCK_DGRAM, SOCK_STREAM};
use crate::bytes::{bytes_eq, i32_from_ne_bytes, le_u32};
use crate::harness::{Sys, SysVal, TestResult, check, check_ok, guard, ok, passed, that};
use crate::spawn_ipc::{all_bytes, all_bytes_are};

verus! {

/// `SO_TYPE` of a stream socketpair end is `SOCK_STREAM` (`val`: the option
/// bytes, in native order).
pub fn socketpair_so_type_stream(
    sp: Sys,
    get: SysVal,
    val: [u8; 4],
    close_a: Sys,
    close_b: Sys,
) -> (r: TestResult)
    ensures
        r == guard(ok(sp, "socketpair"), guard(ok(get, "getsockopt"),
            guard(that((get->Ok_0) == 4, "opt len"),
            guard(that(le_u32(val@) as i32 == SOCK_STREAM, "SO_TYPE"),
            guard(ok(close_a, "close a"), guard(ok(close_b, "close b"), passed())))))),
{
    check_ok(sp, "socketpair")?;
    let n = check_ok(get, "getsockopt")?;
    check(n == 4, "opt len")?;
    check(i32_from_ne_bytes(val) as i64 == SOCK_STREAM, "SO_TYPE")?;
    check_ok(close_a, "close a")?;
    check_ok(close_b, "close b")?;
    Ok(())
}

/// `SO_TYPE` of both ends of a stream socketpair is `SOCK_STREAM`.
pub fn socketpair_so_type_both_ends(
    sp: Sys,
    get_a: Sys,
    val_a: [u8; 4],
    get_b: Sys,
    val_b: [u8; 4],
    close_a: Sys,
    close_b: Sys,
) -> (r: TestResult)
    ensures
        r == guard(ok(sp, "socketpair"), guard(ok(get_a, "getsockopt"),
            guard(that(le_u32(val_a@) as i32 == SOCK_STREAM, "stream"),
            guard(ok(get_b, "getsockopt"),
            guard(that(le_u32(val_b@) as i32 == SOCK_STREAM, "stream"),
            guard(ok(close_a, "close a"), guard(ok(close_b, "close b"), passed()))))))),
{
    check_ok(sp, "socketpair")?;
    check_ok(get_a, "getsockopt")?;
    check(i32_from_ne_bytes(val_a) as i64 == SOCK_STREAM, "stream")?;
    check_ok(get_b, "getsockopt")?;
    check(i32_from_ne_bytes(val_b) as i64 == SOCK_STREAM, "stream")?;
    check_ok(close_a, "close a")?;
    check_ok(close_b, "close b")?;
    Ok(())
}

/// "dgram-msg" crosses a datagram socketpair.
pub fn unix_dgram_socketpair_send_recv(
    sp: Sys,
    send: SysVal,
    recv: SysVal,
    data: &[u8],
    close_a: Sys,
    close_b: Sys,
) -> (r: TestResult)
    ensures
        r == guard(ok(sp, "socketpair"), guard(ok(send, "send"),
            guard(that((send->Ok_0) == 9, "slen"), guard(ok(recv, "recv"),
            guard(that((recv->Ok_0) == 9, "rlen"),
            guard(that(data@ == "dgram-msg".spec_bytes(), "data"), guard(ok(close_a, "close a"),
            guard(ok(close_b, "close b"), passed())))))))),
{
    check_ok(sp, "socketpair")?;
    let s = check_ok(send, "send")?;
    check(s == 9, "slen")?;
    let r = check_ok(recv, "recv")?;
    check(r == 9, "rlen")?;
    check(bytes_eq(&data, "dgram-msg".as_bytes()), "data")?;
    check_ok(close_a, "close a")?;
    check_ok(close_b, "close b")?;
    Ok(())
}

/// Asking for a 64000-byte receive buffer gives at least half of it.
pub fn setsockopt_so_rcvbuf(
    sp: Sys,
    set: Sys,
    get: Sys,
    val: [u8; 4],
    close_a: Sys,
    close_b: Sys,
) -> (r: TestResult)
    ensures
        r == guard(ok(sp, "socketpair"), guard(ok(set, "setsockopt"), guard(ok(get, "getsockopt"),
            guard(that(le_u32(val@) as i32 >= 32000, "rcvbuf raised"),
            guard(ok(close_a, "close a"), guard(ok(close_b, "close b"), passed())))))),
{
    check_ok(sp, "socketpair")?;
    check_ok(set, "setsockopt")?;
    check_ok(get, "getsockopt")?;
    check(i32_from_ne_bytes(val) >= 32000, "rcvbuf raised")?;
    check_ok(close_a, "close a")?;
    check_ok(close_b, "close b")?;
    Ok(())
}

/// `SO_REUSEADDR` sets on a unix stream socket.
pub fn setsockopt_so_reuseaddr(socket: Sys, set: Sys, close: Sys) -> (r: TestResult)
    ensures
        r == guard(ok(socket, "socket"), guard(ok(set, "reuseaddr"),
            guard(ok(close, "close"), passed()))),
{
    check_ok(socket, "socket")?;
    check_ok(set, "reuseaddr")?;
    check_ok(close, "close")?;
    Ok(())
}

/// A socketpair end's name has a length.
pub fn getsockname_socketpair(
    sp: Sys,
    get: Sys,
    len: u32,
    close_a: Sys,
    close_b: Sys,
) -> (r: TestResult)
    ensures
        r == guard(ok(sp, "socketpair"), guard(ok(get, "getsockname"),
            guard(that(len > 0, "addr len"), guard(ok(close_a, "close a"),
            guard(ok(close_b, "close b"), passed()))))),
{
    check_ok(sp, "socketpair")?;
    check_ok(get, "getsockname")?;
    check(len > 0, "addr len")?;
    check_ok(close_a, "close a")?;
    check_ok(close_b, "close b")?;
    Ok(())
}

/// A socketpair end's peer name has a length.
pub fn getpeername_socketpair(
    sp: Sys,
    get: Sys,
    len: u32,
    close_a: Sys,
    close_b: Sys,
) -> (r: TestResult)
    ensures
        r == guard(ok(sp, "socketpair"), guard(ok(get, "getpeername"),
            guard(that(len > 0, "peer len"), guard(ok(close_a, "close a"),
            guard(ok(close_b, "close b"), passed()))))),
{
    check_ok(sp, "socketpair")?;
    check_ok(get, "getpeername")?;
    check(len > 0, "peer len")?;
    check_ok(close_a, "close a")?;
    check_ok(close_b, "close b")?;
    Ok(())
}

/// Datagrams cross a socketpair both ways ("a->b" and "b->a").
pub fn dgram_socketpair_bidirectional(
    sp: Sys,
    send_ab: Sys,
    send_ba: Sys,
    recv_b: SysVal,
    at_b: &[u8],
    recv_a: SysVal,
    at_a: &[u8],
    close_a: Sys,
    close_b: Sys,
) -> (r: TestResult)
    ensures
        r == guard(ok(sp, "socketpair"), guard(ok(send_ab, "send ab"),
            guard(ok(send_ba, "send ba"), guard(ok(recv_b, "recv b"),
            guard(that((recv_b->Ok_0) == 4, "rlen b"),
            guard(that(at_b@ == "a->b".spec_bytes(), "ab"), guard(ok(recv_a, "recv a"),
            guard(that((recv_a->Ok_0) == 4, "rlen a"),
            guard(that(at_a@ == "b->a".spec_bytes(), "ba"), guard(ok(close_a, "close a"),
            guard(ok(close_b, "close b"), passed()))))))))))),
{
    check_ok(sp, "socketpair")?;
    check_ok(send_ab, "send ab")?;
    check_ok(send_ba, "send ba")?;
    let nb = check_ok(recv_b, "recv b")?;
    check(nb == 4, "rlen b")?;
    check(bytes_eq(&at_b, "a->b".as_bytes()), "ab")?;
    let na = check_ok(recv_a, "recv a")?;
    check(na == 4, "rlen a")?;
    check(bytes_eq(&at_a, "b->a".as_bytes()), "ba")?;
    check_ok(close_a, "close a")?;
    check_ok(close_b, "close b")?;
    Ok(())
}

/// `SO_TYPE` of a datagram socket is `SOCK_DGRAM`.
pub fn socket_dgram_so_type(socket: Sys, get: Sys, val: [u8; 4], close: Sys) -> (r: TestResult)
    ensures
        r == guard(ok(socket, "socket"), guard(ok(get, "getsockopt"),
            guard(that(le_u32(val@) as i32 == SOCK_DGRAM, "dgram"),
            guard(ok(close, "close"), passed())))),
{
    check_ok(socket, "socket")?;
    check_ok(get, "getsockopt")?;
    check(i32_from_ne_bytes(val) as i64 == SOCK_DGRAM, "dgram")?;
    check_ok(close, "close")?;
    Ok(())
}

/// 1024 bytes of 0x5C cross a stream socketpair in one receive.
pub fn stream_socketpair_large_send(
    sp: Sys,
    send: SysVal,
    recv: SysVal,
    buf: &[u8],
    close_a: Sys,
    close_b: Sys,
) -> (r: TestResult)
    ensures
        r == guard(ok(sp, "socketpair"), guard(ok(send, "send"),
            guard(that((send->Ok_0) == 1024, "slen"), guard(ok(recv, "recv"),
            guard(that((recv->Ok_0) == 1024, "rlen"),
            guard(that(buf@.len() == 1024 && all_bytes(buf@, 0x5C), "payload"),
            guard(ok(close_a, "close a"), guard(ok(close_b, "close b"), passed())))))))),
{
    check_ok(sp, "socketpair")?;
    let s = check_ok(send, "send")?;
    check(s == 1024, "slen")?;
    let r = check_ok(recv, "recv")?;
    check(r == 1024, "rlen")?;
    check(buf.len() == 1024 && all_bytes_are(buf, 0x5C), "payload")?;
    check_ok(close_a, "close a")?;
    check_ok(close_b, "close b")?;
    Ok(())
}

/// The default receive buffer is positive.
pub fn getsockopt_so_rcvbuf_default(
    sp: Sys,
    get: Sys,
    val: [u8; 4],
    close_a: Sys,
    close_b: Sys,
) -> (r: TestResult)
    ensures
        r == guard(ok(sp, "socketpair"), guard(ok(get, "getsockopt"),
            guard(that(le_u32(val@) as i32 > 0, "default rcvbuf"), guard(ok(close_a, "close a"),
            guard(ok(close_b, "close b"), passed()))))),
{
    check_ok(sp, "socketpair")?;
    check_ok(get, "getsockopt")?;
    check(i32_from_ne_bytes(val) > 0, "default rcvbuf")?;
    check_ok(close_a, "close a")?;
    check_ok(close_b, "close b")?;
    Ok(())
}

} // verus!
