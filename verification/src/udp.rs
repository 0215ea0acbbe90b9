//! UDP over loopback: `sendto`, `recvfrom` and connected datagram sockets.

use vstd::prelude::*;
use vstd::string::StringSliceAdditionalSpecFns;
use crate::abi::AF_INET;
use crate::bytes::bytes_eq;
use crate::harness::{Sys, SysVal, TestResult, check, check_ok, guard, nested, ok, passed, that};

verus! {

/// The test pattern of `n` bytes `i % 251`.
pub open spec fn mod251(n: nat) -> Seq<u8> {
    Seq::new(n, |i: int| (i % 251) as u8)
}

/// Builds `mod251(n)`.
pub fn make_mod251(n: usize) -> (v: Vec<u8>)
    ensures
        v@ == mod251(n as nat),
{
    let mut v: Vec<u8> = Vec::new();
    let mut i: usize = 0;
    while i < n
        invariant
            i <= n,
            v@.len() == i,
            forall|j: int| 0 <= j < i ==> v@[j] == (j % 251) as u8,
        decreases n - i,
    {
        v.push((i % 251) as u8);
        i = i + 1;
    }
    assert(v@ =~= mod251(n as nat));
    v
}

/// The pattern written is the pattern checked: `mod251(n)` has `n` bytes,
/// so `is_mod251` accepts what `make_mod251` built; and a shorter pattern
/// is a prefix of a longer one.
pub proof fn lemma_mod251_self_checks(n: nat, m: nat)
    requires
        m <= n,
    ensures
        mod251(n).len() == n,
        mod251(n) == mod251(mod251(n).len()),
        mod251(n).subrange(0, m as int) == mod251(m),
{
    assert(mod251(n).subrange(0, m as int) =~= mod251(m));
}

/// Whether `buf` is `mod251` of its length.
pub fn is_mod251(buf: &[u8]) -> (r: bool)
    ensures
        r == (buf@ == mod251(buf@.len())),
{
    let mut i: usize = 0;
    while i < buf.len()
        invariant
            i <= buf@.len(),
            forall|j: int| 0 <= j < i ==> buf@[j] == (j % 251) as u8,
        decreases buf.len() - i,
    {
        if buf[i] != (i % 251) as u8 {
            assert(buf@[i as int] != mod251(buf@.len())[i as int]);
            return false;
        }
        i = i + 1;
    }
    assert(buf@ =~= mod251(buf@.len()));
    true
}

/// A UDP socket bound to a loopback ephemeral `port`.
pub fn bind_udp_ephemeral(socket: Sys, bind: Sys, name: Sys, port: u16) -> (r: TestResult)
    ensures
        r == guard(ok(socket, "socket"), guard(ok(bind, "bind"), guard(ok(name, "getsockname"),
            guard(that(port != 0, "ephemeral port"), passed())))),
{
    check_ok(socket, "socket")?;
    check_ok(bind, "bind")?;
    check_ok(name, "getsockname")?;
    check(port != 0, "ephemeral port")?;
    Ok(())
}

/// The bound address is an IPv4 one.
pub fn udp_bind_ephemeral(setup: TestResult, family: u16, close: Sys) -> (r: TestResult)
    ensures
        r == guard(nested(setup), guard(that(family == AF_INET as u16, "family"),
            guard(ok(close, "close"), passed()))),
{
    setup?;
    check(family == AF_INET as u16, "family")?;
    check_ok(close, "close")?;
    Ok(())
}

/// "udp-ping" sent to the bound socket is received from an IPv4 peer.
pub fn udp_sendto_recvfrom_loopback(
    setup: TestResult,
    cli: Sys,
    send: SysVal,
    recv: SysVal,
    payload: &[u8],
    peer_family: u16,
    close_cli: Sys,
    close_srv: Sys,
) -> (r: TestResult)
    ensures
        r == guard(nested(setup), guard(ok(cli, "client"), guard(ok(send, "sendto"),
            guard(that((send->Ok_0) == 8, "slen"), guard(ok(recv, "recvfrom"),
            guard(that((recv->Ok_0) == 8, "rlen"),
            guard(that(payload@ == "udp-ping".spec_bytes(), "payload"),
            guard(that(peer_family == AF_INET as u16, "peer family"),
            guard(ok(close_cli, "close cli"), guard(ok(close_srv, "close srv"), passed())))))))))),
{
    setup?;
    check_ok(cli, "client")?;
    let s = check_ok(send, "sendto")?;
    check(s == 8, "slen")?;
    let n = check_ok(recv, "recvfrom")?;
    check(n == 8, "rlen")?;
    check(bytes_eq(&payload, "udp-ping".as_bytes()), "payload")?;
    check(peer_family == AF_INET as u16, "peer family")?;
    check_ok(close_cli, "close cli")?;
    check_ok(close_srv, "close srv")?;
    Ok(())
}

/// "ping" arrives from the client's port and the reply "pong" gets back.
pub fn udp_echo_roundtrip(
    setup: TestResult,
    cli: Sys,
    bind: Sys,
    name: Sys,
    send: Sys,
    recv: SysVal,
    peer_port: u16,
    cli_port: u16,
    reply: Sys,
    recv_reply: SysVal,
    pong: &[u8],
    close_cli: Sys,
    close_srv: Sys,
) -> (r: TestResult)
    ensures
        r == guard(nested(setup), guard(ok(cli, "client"), guard(ok(bind, "bind cli"),
            guard(ok(name, "cli getsockname"), guard(ok(send, "sendto"), guard(ok(recv, "recv"),
            guard(that((recv->Ok_0) == 4, "ping len"),
            guard(that(peer_port == cli_port, "peer port"), guard(ok(reply, "reply"),
            guard(ok(recv_reply, "recv reply"), guard(that((recv_reply->Ok_0) == 4, "pong len"),
            guard(that(pong@ == "pong".spec_bytes(), "pong"), guard(ok(close_cli, "close cli"),
            guard(ok(close_srv, "close srv"), passed())))))))))))))),
{
    setup?;
    check_ok(cli, "client")?;
    check_ok(bind, "bind cli")?;
    check_ok(name, "cli getsockname")?;
    check_ok(send, "sendto")?;
    let n = check_ok(recv, "recv")?;
    check(n == 4, "ping len")?;
    check(peer_port == cli_port, "peer port")?;
    check_ok(reply, "reply")?;
    let m = check_ok(recv_reply, "recv reply")?;
    check(m == 4, "pong len")?;
    check(bytes_eq(&pong, "pong".as_bytes()), "pong")?;
    check_ok(close_cli, "close cli")?;
    check_ok(close_srv, "close srv")?;
    Ok(())
}

/// An empty datagram is sent and received empty.
pub fn udp_sendto_zero_len(
    setup: TestResult,
    cli: Sys,
    send: SysVal,
    recv: SysVal,
    close_cli: Sys,
    close_srv: Sys,
) -> (r: TestResult)
    ensures
        r == guard(nested(setup), guard(ok(cli, "client"), guard(ok(send, "sendto empty"),
            guard(that((send->Ok_0) == 0, "slen"), guard(ok(recv, "recv"),
            guard(that((recv->Ok_0) == 0, "empty datagram"), guard(ok(close_cli, "close cli"),
            guard(ok(close_srv, "close srv"), passed())))))))),
{
    setup?;
    check_ok(cli, "client")?;
    let s = check_ok(send, "sendto empty")?;
    check(s == 0, "slen")?;
    let n = check_ok(recv, "recv")?;
    check(n == 0, "empty datagram")?;
    check_ok(close_cli, "close cli")?;
    check_ok(close_srv, "close srv")?;
    Ok(())
}

/// A connected UDP socket sends "connected-udp".
pub fn udp_connected_send_recv(
    setup: TestResult,
    cli: Sys,
    connect: Sys,
    send: SysVal,
    recv: SysVal,
    data: &[u8],
    close_cli: Sys,
    close_srv: Sys,
) -> (r: TestResult)
    ensures
        r == guard(nested(setup), guard(ok(cli, "client"), guard(ok(connect, "connect"),
            guard(ok(send, "send"), guard(that((send->Ok_0) == 13, "slen"), guard(ok(recv, "recv"),
            guard(that((recv->Ok_0) == 13, "rlen"),
            guard(that(data@ == "connected-udp".spec_bytes(), "data"),
            guard(ok(close_cli, "close cli"), guard(ok(close_srv, "close srv"), passed())))))))))),
{
    setup?;
    check_ok(cli, "client")?;
    check_ok(connect, "connect")?;
    let s = check_ok(send, "send")?;
    check(s == 13, "slen")?;
    let n = check_ok(recv, "recv")?;
    check(n == 13, "rlen")?;
    check(bytes_eq(&data, "connected-udp".as_bytes()), "data")?;
    check_ok(close_cli, "close cli")?;
    check_ok(close_srv, "close srv")?;
    Ok(())
}

/// A 1200-byte datagram (`make_mod251`) arrives whole (`payload`: the first
/// 1200 bytes received).
pub fn udp_largeish_datagram(
    setup: TestResult,
    cli: Sys,
    send: SysVal,
    recv: SysVal,
    payload: &[u8],
    close_cli: Sys,
    close_srv: Sys,
) -> (r: TestResult)
    ensures
        r == guard(nested(setup), guard(ok(cli, "client"), guard(ok(send, "sendto"),
            guard(that((send->Ok_0) == 1200, "slen"), guard(ok(recv, "recv"),
            guard(that((recv->Ok_0) == 1200, "rlen"),
            guard(that(payload@.len() == 1200 && payload@ == mod251(1200), "payload"),
            guard(ok(close_cli, "close cli"), guard(ok(close_srv, "close srv"), passed()))))))))),
{
    setup?;
    check_ok(cli, "client")?;
    let s = check_ok(send, "sendto")?;
    check(s == 1200, "slen")?;
    let n = check_ok(recv, "recv")?;
    check(n == 1200, "rlen")?;
    check(payload.len() == 1200 && is_mod251(payload), "payload")?;
    check_ok(close_cli, "close cli")?;
    check_ok(close_srv, "close srv")?;
    Ok(())
}

/// Two UDP sockets connected to each other exchange "up" and "dn".
pub fn udp_connected_socket_bidirectional(
    setup: TestResult,
    cli: Sys,
    bind: Sys,
    connect: Sys,
    name: Sys,
    connect_srv: Sys,
    send_up: Sys,
    recv_up: SysVal,
    up: &[u8],
    send_dn: Sys,
    recv_dn: SysVal,
    dn: &[u8],
    close_cli: Sys,
    close_srv: Sys,
) -> (r: TestResult)
    ensures
        r == guard(nested(setup), guard(ok(cli, "client"), guard(ok(bind, "bind cli"),
            guard(ok(connect, "connect"), guard(ok(name, "cli addr"),
            guard(ok(connect_srv, "connect srv"), guard(ok(send_up, "cli send"),
            guard(ok(recv_up, "srv recv"), guard(that((recv_up->Ok_0) == 2, "up"),
            guard(that(up@ == "up".spec_bytes(), "up data"), guard(ok(send_dn, "srv send"),
            guard(ok(recv_dn, "cli recv"), guard(that((recv_dn->Ok_0) == 2, "dn"),
            guard(that(dn@ == "dn".spec_bytes(), "dn data"), guard(ok(close_cli, "close cli"),
            guard(ok(close_srv, "close srv"), passed())))))))))))))))),
{
    setup?;
    check_ok(cli, "client")?;
    check_ok(bind, "bind cli")?;
    check_ok(connect, "connect")?;
    check_ok(name, "cli addr")?;
    check_ok(connect_srv, "connect srv")?;
    check_ok(send_up, "cli send")?;
    let n = check_ok(recv_up, "srv recv")?;
    check(n == 2, "up")?;
    check(bytes_eq(&up, "up".as_bytes()), "up data")?;
    check_ok(send_dn, "srv send")?;
    let m = check_ok(recv_dn, "cli recv")?;
    check(m == 2, "dn")?;
    check(bytes_eq(&dn, "dn".as_bytes()), "dn data")?;
    check_ok(close_cli, "close cli")?;
    check_ok(close_srv, "close srv")?;
    Ok(())
}

} // verus!
