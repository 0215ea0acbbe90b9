//! TCP over loopback: listen, connect, `accept4`, transfer and shutdown.

use vstd::prelude::*;
use vstd::string::StringSliceAdditionalSpecFns;
use crate::abi::{AF_INET, FD_CLOEXEC, O_NONBLOCK};
use crate::bytes::bytes_eq;
use crate::harness::{
    AssertFail, Sys, SysVal, TestResult, check, check_ok, fail, failure, guard, nested, ok, passed,
    that,
};
use crate::udp::{is_mod251, mod251};

verus! {

/// The step of the send loop of `tcp_large_send_recv` with `sent` of 8192
/// bytes out: the new total after a send of at least one byte.
pub fn tcp_send_step(sent: usize, send: SysVal) -> (r: Result<usize, AssertFail>)
    requires
        sent < 8192,
        send is Ok ==> send->Ok_0 <= 8192 - sent,
    ensures
        r == (match send {
            Err(e) => Err(AssertFail { msg: "send", errno: Some(e) }),
            Ok(n) => if n > 0 { Ok((sent + n) as usize) } else { Err(failure("send progress")) },
        }),
{
    let n = check_ok(send, "send")?;
    if n > 0 { Ok(sent + n as usize) } else { Err(fail("send progress")) }
}

/// The step of the receive loop of `tcp_large_send_recv` with `got` of 8192
/// bytes in: the new total after a receive of at least one byte.
pub fn tcp_recv_step(got: usize, recv: SysVal) -> (r: Result<usize, AssertFail>)
    requires
        got < 8192,
        recv is Ok ==> recv->Ok_0 <= 8192 - got,
    ensures
        r == (match recv {
            Err(e) => Err(AssertFail { msg: "recv", errno: Some(e) }),
            Ok(n) => if n > 0 { Ok((got + n) as usize) } else { Err(failure("recv progress")) },
        }),
{
    let n = check_ok(recv, "recv")?;
    if n > 0 { Ok(got + n as usize) } else { Err(fail("recv progress")) }
}

/// A TCP listen on a loopback ephemeral `port`.
pub fn listen_ephemeral(
    socket: Sys,
    reuse: Sys,
    bind: Sys,
    listen: Sys,
    name: Sys,
    port: u16,
) -> (r: TestResult)
    ensures
        r == guard(ok(socket, "socket"), guard(ok(reuse, "SO_REUSEADDR"), guard(ok(bind, "bind"),
            guard(ok(listen, "listen"), guard(ok(name, "getsockname"),
            guard(that(port != 0, "ephemeral port"), passed())))))),
{
    check_ok(socket, "socket")?;
    check_ok(reuse, "SO_REUSEADDR")?;
    check_ok(bind, "bind")?;
    check_ok(listen, "listen")?;
    check_ok(name, "getsockname")?;
    check(port != 0, "ephemeral port")?;
    Ok(())
}

/// The listen's address is an IPv4 one.
pub fn tcp_bind_listen_ephemeral(setup: TestResult, family: u16, close: Sys) -> (r: TestResult)
    ensures
        r == guard(nested(setup), guard(that(family == AF_INET as u16, "family"),
            guard(ok(close, "close"), passed()))),
{
    setup?;
    check(family == AF_INET as u16, "family")?;
    check_ok(close, "close")?;
    Ok(())
}

/// A connection is accepted from an IPv4 peer.
pub fn tcp_connect_accept4(
    setup: TestResult,
    cli: Sys,
    connect: Sys,
    accept: SysVal,
    peer_family: u16,
    close_acc: Sys,
    close_cli: Sys,
    close_srv: Sys,
) -> (r: TestResult)
    ensures
        r == guard(nested(setup), guard(ok(cli, "client"), guard(ok(connect, "connect"),
            guard(ok(accept, "accept4"), guard(that((accept->Ok_0) >= 0, "accepted fd"),
            guard(that(peer_family == AF_INET as u16, "peer family"),
            guard(ok(close_acc, "close acc"), guard(ok(close_cli, "close cli"),
            guard(ok(close_srv, "close srv"), passed()))))))))),
{
    setup?;
    check_ok(cli, "client")?;
    check_ok(connect, "connect")?;
    let acc = check_ok(accept, "accept4")?;
    check(acc >= 0, "accepted fd")?;
    check(peer_family == AF_INET as u16, "peer family")?;
    check_ok(close_acc, "close acc")?;
    check_ok(close_cli, "close cli")?;
    check_ok(close_srv, "close srv")?;
    Ok(())
}

/// "tcp-loopback" crosses the connection.
pub fn tcp_send_recv_loopback(
    setup: TestResult,
    cli: Sys,
    connect: Sys,
    accept: Sys,
    send: SysVal,
    recv: SysVal,
    payload: &[u8],
    close_acc: Sys,
    close_cli: Sys,
    close_srv: Sys,
) -> (r: TestResult)
    ensures
        r == guard(nested(setup), guard(ok(cli, "client"), guard(ok(connect, "connect"),
            guard(ok(accept, "accept4"), guard(ok(send, "send"),
            guard(that((send->Ok_0) == 12, "slen"), guard(ok(recv, "recv"),
            guard(that((recv->Ok_0) == 12, "rlen"),
            guard(that(payload@ == "tcp-loopback".spec_bytes(), "payload"),
            guard(ok(close_acc, "close acc"), guard(ok(close_cli, "close cli"),
            guard(ok(close_srv, "close srv"), passed())))))))))))),
{
    setup?;
    check_ok(cli, "client")?;
    check_ok(connect, "connect")?;
    check_ok(accept, "accept4")?;
    let s = check_ok(send, "send")?;
    check(s == 12, "slen")?;
    let n = check_ok(recv, "recv")?;
    check(n == 12, "rlen")?;
    check(bytes_eq(&payload, "tcp-loopback".as_bytes()), "payload")?;
    check_ok(close_acc, "close acc")?;
    check_ok(close_cli, "close cli")?;
    check_ok(close_srv, "close srv")?;
    Ok(())
}

/// "c2s" and "s2c" cross the connection both ways.
pub fn tcp_bidirectional(
    setup: TestResult,
    cli: Sys,
    connect: Sys,
    accept: Sys,
    c2s: Sys,
    s2c: Sys,
    recv_acc: SysVal,
    at_acc: &[u8],
    recv_cli: SysVal,
    at_cli: &[u8],
    close_acc: Sys,
    close_cli: Sys,
    close_srv: Sys,
) -> (r: TestResult)
    ensures
        r == guard(nested(setup), guard(ok(cli, "client"), guard(ok(connect, "connect"),
            guard(ok(accept, "accept4"), guard(ok(c2s, "c2s"), guard(ok(s2c, "s2c"),
            guard(ok(recv_acc, "recv acc"), guard(that((recv_acc->Ok_0) == 3, "acc"),
            guard(that(at_acc@ == "c2s".spec_bytes(), "c2s data"), guard(ok(recv_cli, "recv cli"),
            guard(that((recv_cli->Ok_0) == 3, "cli"),
            guard(that(at_cli@ == "s2c".spec_bytes(), "s2c data"),
            guard(ok(close_acc, "close acc"), guard(ok(close_cli, "close cli"),
            guard(ok(close_srv, "close srv"), passed()))))))))))))))),
{
    setup?;
    check_ok(cli, "client")?;
    check_ok(connect, "connect")?;
    check_ok(accept, "accept4")?;
    check_ok(c2s, "c2s")?;
    check_ok(s2c, "s2c")?;
    let a = check_ok(recv_acc, "recv acc")?;
    check(a == 3, "acc")?;
    check(bytes_eq(&at_acc, "c2s".as_bytes()), "c2s data")?;
    let c = check_ok(recv_cli, "recv cli")?;
    check(c == 3, "cli")?;
    check(bytes_eq(&at_cli, "s2c".as_bytes()), "s2c data")?;
    check_ok(close_acc, "close acc")?;
    check_ok(close_cli, "close cli")?;
    check_ok(close_srv, "close srv")?;
    Ok(())
}

/// `accept4(SOCK_CLOEXEC)` sets close-on-exec.
pub fn tcp_accept4_cloexec(
    setup: TestResult,
    cli: Sys,
    connect: Sys,
    accept: Sys,
    getfd: SysVal,
    close_acc: Sys,
    close_cli: Sys,
    close_srv: Sys,
) -> (r: TestResult)
    ensures
        r == guard(nested(setup), guard(ok(cli, "client"), guard(ok(connect, "connect"),
            guard(ok(accept, "accept4"), guard(ok(getfd, "F_GETFD"),
            guard(that((getfd->Ok_0) & FD_CLOEXEC != 0, "CLOEXEC"),
            guard(ok(close_acc, "close acc"), guard(ok(close_cli, "close cli"),
            guard(ok(close_srv, "close srv"), passed()))))))))),
{
    setup?;
    check_ok(cli, "client")?;
    check_ok(connect, "connect")?;
    check_ok(accept, "accept4")?;
    let fl = check_ok(getfd, "F_GETFD")?;
    check(fl & FD_CLOEXEC != 0, "CLOEXEC")?;
    check_ok(close_acc, "close acc")?;
    check_ok(close_cli, "close cli")?;
    check_ok(close_srv, "close srv")?;
    Ok(())
}

/// After the client shuts down writing, the server reads end of stream.
pub fn tcp_shutdown_wr_eof(
    setup: TestResult,
    cli: Sys,
    connect: Sys,
    accept: Sys,
    shutdown: Sys,
    recv: SysVal,
    close_acc: Sys,
    close_cli: Sys,
    close_srv: Sys,
) -> (r: TestResult)
    ensures
        r == guard(nested(setup), guard(ok(cli, "client"), guard(ok(connect, "connect"),
            guard(ok(accept, "accept4"), guard(ok(shutdown, "shutdown"),
            guard(ok(recv, "recv eof"), guard(that((recv->Ok_0) == 0, "EOF"),
            guard(ok(close_acc, "close acc"), guard(ok(close_cli, "close cli"),
            guard(ok(close_srv, "close srv"), passed())))))))))),
{
    setup?;
    check_ok(cli, "client")?;
    check_ok(connect, "connect")?;
    check_ok(accept, "accept4")?;
    check_ok(shutdown, "shutdown")?;
    let n = check_ok(recv, "recv eof")?;
    check(n == 0, "EOF")?;
    check_ok(close_acc, "close acc")?;
    check_ok(close_cli, "close cli")?;
    check_ok(close_srv, "close srv")?;
    Ok(())
}

/// The client's peer is the listen's IPv4 address and port.
pub fn tcp_getsockname_port_matches(
    setup: TestResult,
    cli: Sys,
    connect: Sys,
    peer: Sys,
    peer_port: u16,
    bound_port: u16,
    peer_family: u16,
    close_cli: Sys,
    close_srv: Sys,
) -> (r: TestResult)
    ensures
        r == guard(nested(setup), guard(ok(cli, "client"), guard(ok(connect, "connect"),
            guard(ok(peer, "getpeername"), guard(that(peer_port == bound_port, "peer port"),
            guard(that(peer_family == AF_INET as u16, "peer family"),
            guard(ok(close_cli, "close cli"), guard(ok(close_srv, "close srv"), passed())))))))),
{
    setup?;
    check_ok(cli, "client")?;
    check_ok(connect, "connect")?;
    check_ok(peer, "getpeername")?;
    check(peer_port == bound_port, "peer port")?;
    check(peer_family == AF_INET as u16, "peer family")?;
    check_ok(close_cli, "close cli")?;
    check_ok(close_srv, "close srv")?;
    Ok(())
}

/// A new socket with `SO_REUSEADDR` binds after the listen closed.
pub fn tcp_reuseaddr_rebind(
    setup: TestResult,
    close1: Sys,
    socket2: Sys,
    reuse: Sys,
    rebind: Sys,
    close2: Sys,
) -> (r: TestResult)
    ensures
        r == guard(nested(setup), guard(ok(close1, "close1"), guard(ok(socket2, "socket2"),
            guard(ok(reuse, "reuse"), guard(ok(rebind, "rebind"),
            guard(ok(close2, "close2"), passed())))))),
{
    setup?;
    check_ok(close1, "close1")?;
    check_ok(socket2, "socket2")?;
    check_ok(reuse, "reuse")?;
    check_ok(rebind, "rebind")?;
    check_ok(close2, "close2")?;
    Ok(())
}

/// After the client shuts down reading, the server can still send.
pub fn tcp_shutdown_after_connect_rd(
    setup: TestResult,
    cli: Sys,
    connect: Sys,
    accept: Sys,
    shutdown: Sys,
    send: Sys,
    close_acc: Sys,
    close_cli: Sys,
    close_srv: Sys,
) -> (r: TestResult)
    ensures
        r == guard(nested(setup), guard(ok(cli, "client"), guard(ok(connect, "connect"),
            guard(ok(accept, "accept4"), guard(ok(shutdown, "shutdown rd"),
            guard(ok(send, "peer send"), guard(ok(close_acc, "close acc"),
            guard(ok(close_cli, "close cli"), guard(ok(close_srv, "close srv"), passed()))))))))),
{
    setup?;
    check_ok(cli, "client")?;
    check_ok(connect, "connect")?;
    check_ok(accept, "accept4")?;
    check_ok(shutdown, "shutdown rd")?;
    check_ok(send, "peer send")?;
    check_ok(close_acc, "close acc")?;
    check_ok(close_cli, "close cli")?;
    check_ok(close_srv, "close srv")?;
    Ok(())
}

/// `accept4(SOCK_CLOEXEC|SOCK_NONBLOCK)` sets both flags.
pub fn tcp_accept4_nonblock_flag(
    setup: TestResult,
    cli: Sys,
    connect: Sys,
    accept: Sys,
    getfl: SysVal,
    getfd: SysVal,
    close_acc: Sys,
    close_cli: Sys,
    close_srv: Sys,
) -> (r: TestResult)
    ensures
        r == guard(nested(setup), guard(ok(cli, "client"), guard(ok(connect, "connect"),
            guard(ok(accept, "accept4"), guard(ok(getfl, "F_GETFL"),
            guard(that(((getfl->Ok_0) as i32) & (O_NONBLOCK as i32) != 0, "NONBLOCK"),
            guard(ok(getfd, "F_GETFD"), guard(that((getfd->Ok_0) & FD_CLOEXEC != 0, "CLOEXEC"),
            guard(ok(close_acc, "close acc"), guard(ok(close_cli, "close cli"),
            guard(ok(close_srv, "close srv"), passed()))))))))))),
{
    setup?;
    check_ok(cli, "client")?;
    check_ok(connect, "connect")?;
    check_ok(accept, "accept4")?;
    let fl = check_ok(getfl, "F_GETFL")?;
    check((fl as i32) & (O_NONBLOCK as i32) != 0, "NONBLOCK")?;
    let fd = check_ok(getfd, "F_GETFD")?;
    check(fd & FD_CLOEXEC != 0, "CLOEXEC")?;
    check_ok(close_acc, "close acc")?;
    check_ok(close_cli, "close cli")?;
    check_ok(close_srv, "close srv")?;
    Ok(())
}

/// After the client shuts down both ways, the server reads end of stream.
pub fn tcp_shutdown_rdwr(
    setup: TestResult,
    cli: Sys,
    connect: Sys,
    accept: Sys,
    shutdown: Sys,
    recv: SysVal,
    close_acc: Sys,
    close_cli: Sys,
    close_srv: Sys,
) -> (r: TestResult)
    ensures
        r == guard(nested(setup), guard(ok(cli, "client"), guard(ok(connect, "connect"),
            guard(ok(accept, "accept4"), guard(ok(shutdown, "shutdown rdwr"),
            guard(ok(recv, "recv eof"), guard(that((recv->Ok_0) == 0, "EOF"),
            guard(ok(close_acc, "close acc"), guard(ok(close_cli, "close cli"),
            guard(ok(close_srv, "close srv"), passed())))))))))),
{
    setup?;
    check_ok(cli, "client")?;
    check_ok(connect, "connect")?;
    check_ok(accept, "accept4")?;
    check_ok(shutdown, "shutdown rdwr")?;
    let n = check_ok(recv, "recv eof")?;
    check(n == 0, "EOF")?;
    check_ok(close_acc, "close acc")?;
    check_ok(close_cli, "close cli")?;
    check_ok(close_srv, "close srv")?;
    Ok(())
}

/// 8192 bytes (`make_mod251`) cross the connection whole (`sent`, `got`: the
/// loops of `tcp_send_step` and `tcp_recv_step`).
pub fn tcp_large_send_recv(
    setup: TestResult,
    cli: Sys,
    connect: Sys,
    accept: Sys,
    sent: TestResult,
    got: TestResult,
    buf: &[u8],
    close_acc: Sys,
    close_cli: Sys,
    close_srv: Sys,
) -> (r: TestResult)
    ensures
        r == guard(nested(setup), guard(ok(cli, "client"), guard(ok(connect, "connect"),
            guard(ok(accept, "accept4"), guard(nested(sent), guard(nested(got),
            guard(that(buf@.len() == 8192 && buf@ == mod251(8192), "payload"),
            guard(ok(close_acc, "close acc"), guard(ok(close_cli, "close cli"),
            guard(ok(close_srv, "close srv"), passed())))))))))),
{
    setup?;
    check_ok(cli, "client")?;
    check_ok(connect, "connect")?;
    check_ok(accept, "accept4")?;
    sent?;
    got?;
    check(buf.len() == 8192 && is_mod251(buf), "payload")?;
    check_ok(close_acc, "close acc")?;
    check_ok(close_cli, "close cli")?;
    check_ok(close_srv, "close srv")?;
    Ok(())
}

/// Data before the client's write shutdown arrives, then end of stream;
/// the server can still answer.
pub fn tcp_shutdown_wr_then_recv_zero(
    setup: TestResult,
    cli: Sys,
    connect: Sys,
    accept: Sys,
    send: Sys,
    recv: SysVal,
    shutdown: Sys,
    recv_eof: SysVal,
    send_back: Sys,
    recv_back: SysVal,
    close_acc: Sys,
    close_cli: Sys,
    close_srv: Sys,
) -> (r: TestResult)
    ensures
        r == guard(nested(setup), guard(ok(cli, "client"), guard(ok(connect, "connect"),
            guard(ok(accept, "accept4"), guard(ok(send, "send pre"), guard(ok(recv, "recv pre"),
            guard(that((recv->Ok_0) == 3, "pre"), guard(ok(shutdown, "SHUT_WR"),
            guard(ok(recv_eof, "recv eof"), guard(that((recv_eof->Ok_0) == 0, "EOF after SHUT_WR"),
            guard(ok(send_back, "peer send"), guard(ok(recv_back, "cli recv"),
            guard(that((recv_back->Ok_0) == 3, "ack"), guard(ok(close_acc, "close acc"),
            guard(ok(close_cli, "close cli"),
            guard(ok(close_srv, "close srv"), passed())))))))))))))))),
{
    setup?;
    check_ok(cli, "client")?;
    check_ok(connect, "connect")?;
    check_ok(accept, "accept4")?;
    check_ok(send, "send pre")?;
    let n = check_ok(recv, "recv pre")?;
    check(n == 3, "pre")?;
    check_ok(shutdown, "SHUT_WR")?;
    let e = check_ok(recv_eof, "recv eof")?;
    check(e == 0, "EOF after SHUT_WR")?;
    check_ok(send_back, "peer send")?;
    let b = check_ok(recv_back, "cli recv")?;
    check(b == 3, "ack")?;
    check_ok(close_acc, "close acc")?;
    check_ok(close_cli, "close cli")?;
    check_ok(close_srv, "close srv")?;
    Ok(())
}

} // verus!
