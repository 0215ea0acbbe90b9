//! TCP and UDP in depth: listen backlogs, payload sizes, `MSG_DONTWAIT`,
//! shutdown and socket options.

use vstd::prelude::*;
use vstd::string::StringSliceAdditionalSpecFns;
use crate::abi::{AF_INET, FD_CLOEXEC};
use crate::bytes::{bytes_eq, i32_from_ne_bytes, le_u32};
use crate::errno::{EAGAIN, ECONNRESET, EINVAL, ENOPROTOOPT, ENOSYS, ENOTCONN, EPIPE};
use crate::harness::{
    AssertFail, Sys, SysVal, TestResult, all_passed, check, check_err, check_ok, errs, fail, failure,
    first_failure, guard, nested, ok, only_if, passed, that,
};
use crate::sendfile_io::head_is;
use crate::spawn_ipc::{all_bytes, all_bytes_are};

verus! {

/// One step of a loop that moves `total` bytes with `done` moved so far: the
/// new count after a call that moved `n` bytes; the call's failure named
/// `msg`; when `progress` names a check, a call that moved nothing fails it.
pub open spec fn spec_transfer_step(done: int, r: SysVal, msg: &'static str, progress: Option<
    &'static str,
>) -> Result<int, AssertFail> {
    match r {
        Err(e) => Err(AssertFail { msg, errno: Some(e) }),
        Ok(n) => if progress is Some && n <= 0 { Err(failure(progress->Some_0)) } else { Ok(done + n) },
    }
}

/// One step of a transfer loop (see `spec_transfer_step`).
pub fn transfer_step(done: usize, total: usize, r: SysVal, msg: &'static str, progress: Option<
    &'static str,
>) -> (out: Result<usize, AssertFail>)
    requires
        done < total,
        r is Ok ==> 0 <= r->Ok_0 <= total - done,
    ensures
        out == (match r {
            Err(e) => Err(AssertFail { msg, errno: Some(e) }),
            Ok(n) => if progress is Some && n <= 0 { Err(failure(progress->Some_0)) } else {
                Ok((done + n) as usize)
            },
        }),
        match spec_transfer_step(done as int, r, msg, progress) {
            Ok(d) => out == Ok::<usize, AssertFail>(d as usize) && d <= total,
            Err(f) => out == Err::<usize, AssertFail>(f),
        },
{
    let n = check_ok(r, msg)?;
    match progress {
        Some(p) => if n <= 0 {
            return Err(fail(p));
        },
        None => {},
    }
    Ok(done + n as usize)
}

/// A whole transfer loop of `total` bytes from `done`, given the results of
/// its calls in order: it ends once all bytes moved, or at the first step
/// that fails (see `spec_transfer_step`); results past its end are not
/// looked at.
pub open spec fn transfer_loop(done: int, total: int, rs: Seq<SysVal>, msg: &'static str, progress: Option<
    &'static str,
>) -> Result<int, AssertFail>
    decreases rs.len(),
{
    if done >= total || rs.len() == 0 {
        Ok(done)
    } else {
        match spec_transfer_step(done, rs[0], msg, progress) {
            Ok(d) => transfer_loop(d, total, rs.drop_first(), msg, progress),
            Err(f) => Err(f),
        }
    }
}

/// With a progress check, a transfer loop makes at most `total - done`
/// calls: given that many results, it has failed or moved all the bytes.
pub proof fn lemma_transfer_loop_ends(done: int, total: int, rs: Seq<SysVal>, msg: &'static str, p: &'static str)
    requires
        rs.len() >= total - done,
    ensures
        transfer_loop(done, total, rs, msg, Some(p)) is Err
            || transfer_loop(done, total, rs, msg, Some(p))->Ok_0 >= total,
    decreases rs.len(),
{
    if done < total && rs.len() > 0 {
        match spec_transfer_step(done, rs[0], msg, Some(p)) {
            Ok(d) => {
                assert(d >= done + 1);
                lemma_transfer_loop_ends(d, total, rs.drop_first(), msg, p);
            },
            Err(_) => {},
        }
    }
}

/// Runs a transfer loop of `total` bytes over the results `rs` of its
/// calls, one `transfer_step` each (see `transfer_loop`): the bytes moved,
/// or the failure of the step that failed.
pub fn run_transfer(total: usize, rs: &[SysVal], msg: &'static str, progress: Option<&'static str>) -> (r: Result<usize, AssertFail>)
    requires
        forall|i: int| 0 <= i < rs@.len() && rs@[i] is Ok ==> 0 <= #[trigger] rs@[i]->Ok_0 <= total,
        total <= usize::MAX / 2,
    ensures
        match transfer_loop(0, total as int, rs@, msg, progress) {
            Ok(d) => r == Ok::<usize, AssertFail>(d as usize),
            Err(f) => r == Err::<usize, AssertFail>(f),
        },
{
    let mut done: usize = 0;
    let mut i: usize = 0;
    assert(rs@.skip(0) =~= rs@);
    while i < rs.len() && done < total
        invariant
            i <= rs@.len(),
            done <= 2 * total,
            total <= usize::MAX / 2,
            forall|j: int| 0 <= j < rs@.len() && rs@[j] is Ok ==> 0 <= #[trigger] rs@[j]->Ok_0 <= total,
            transfer_loop(0, total as int, rs@, msg, progress) == transfer_loop(
                done as int,
                total as int,
                rs@.skip(i as int),
                msg,
                progress,
            ),
        decreases rs.len() - i,
    {
        assert(rs@.skip(i as int)[0] == rs@[i as int]);
        assert(rs@.skip(i as int).drop_first() =~= rs@.skip(i + 1));
        match rs[i] {
            Err(e) => {
                return Err(AssertFail { msg, errno: Some(e) });
            },
            Ok(n) => {
                match progress {
                    Some(p) => if n <= 0 {
                        return Err(fail(p));
                    },
                    None => {},
                }
                done = done + n as usize;
            },
        }
        i = i + 1;
    }
    if i >= rs.len() {
        assert(rs@.skip(i as int).len() == 0);
    }
    Ok(done)
}

/// The payloads `net_tcp_multi_send_recv` sends in turn: "a", "bb", "ccc".
pub fn multi_payload(i: usize) -> (m: &'static [u8])
    requires
        i < 3,
    ensures
        i == 0 ==> m@ == "a".spec_bytes(),
        i == 1 ==> m@ == "bb".spec_bytes(),
        i == 2 ==> m@ == "ccc".spec_bytes(),
{
    if i == 0 { "a".as_bytes() } else if i == 1 { "bb".as_bytes() } else { "ccc".as_bytes() }
}

/// A TCP listen on a loopback ephemeral port with a given backlog.
pub fn listen_ephemeral(
    socket: Sys,
    reuse: Sys,
    bind: Sys,
    listen: Sys,
    name: Sys,
) -> (r: TestResult)
    ensures
        r == guard(ok(socket, "socket"), guard(ok(reuse, "reuse"), guard(ok(bind, "bind"),
            guard(ok(listen, "listen"), guard(ok(name, "name"), passed()))))),
{
    check_ok(socket, "socket")?;
    check_ok(reuse, "reuse")?;
    check_ok(bind, "bind")?;
    check_ok(listen, "listen")?;
    check_ok(name, "name")?;
    Ok(())
}

/// A connected TCP client and its accepted server end.
pub fn tcp_pair(listen: TestResult, cli: Sys, connect: Sys, accept: Sys) -> (r: TestResult)
    ensures
        r == guard(nested(listen), guard(ok(cli, "cli"), guard(ok(connect, "connect"),
            guard(ok(accept, "accept"), passed())))),
{
    listen?;
    check_ok(cli, "cli")?;
    check_ok(connect, "connect")?;
    check_ok(accept, "accept")?;
    Ok(())
}

/// Backlog 0 is accepted.
pub fn net_listen_backlog_0(listen: TestResult, close: Sys) -> (r: TestResult)
    ensures
        r == guard(nested(listen), guard(ok(close, "c"), passed())),
{
    listen?;
    check_ok(close, "c")?;
    Ok(())
}

/// Backlog 1 is accepted.
pub fn net_listen_backlog_1(listen: TestResult, close: Sys) -> (r: TestResult)
    ensures
        r == guard(nested(listen), guard(ok(close, "c"), passed())),
{
    listen?;
    check_ok(close, "c")?;
    Ok(())
}

/// Backlog 5 is accepted.
pub fn net_listen_backlog_5(listen: TestResult, close: Sys) -> (r: TestResult)
    ensures
        r == guard(nested(listen), guard(ok(close, "c"), passed())),
{
    listen?;
    check_ok(close, "c")?;
    Ok(())
}

/// Backlog 128 is accepted.
pub fn net_listen_backlog_128(listen: TestResult, close: Sys) -> (r: TestResult)
    ensures
        r == guard(nested(listen), guard(ok(close, "c"), passed())),
{
    listen?;
    check_ok(close, "c")?;
    Ok(())
}

/// After the client shuts down writing, the server reads end of stream.
pub fn net_tcp_shutdown_wr(
    pair: TestResult,
    shutdown: Sys,
    recv: SysVal,
    close_a: Sys,
    close_c: Sys,
    close_s: Sys,
) -> (r: TestResult)
    ensures
        r == guard(nested(pair), guard(ok(shutdown, "shut"), guard(ok(recv, "eof"),
            guard(that((recv->Ok_0) == 0, "eof"), guard(ok(close_a, "a"), guard(ok(close_c, "c"),
            guard(ok(close_s, "s"), passed()))))))),
{
    pair?;
    check_ok(shutdown, "shut")?;
    let n = check_ok(recv, "eof")?;
    check(n == 0, "eof")?;
    check_ok(close_a, "a")?;
    check_ok(close_c, "c")?;
    check_ok(close_s, "s")?;
    Ok(())
}

/// The server end shuts down reading.
pub fn net_tcp_shutdown_rd(
    pair: TestResult,
    shutdown: Sys,
    close_a: Sys,
    close_c: Sys,
    close_s: Sys,
) -> (r: TestResult)
    ensures
        r == guard(nested(pair), guard(ok(shutdown, "shut"), guard(ok(close_a, "a"),
            guard(ok(close_c, "c"), guard(ok(close_s, "s"), passed()))))),
{
    pair?;
    check_ok(shutdown, "shut")?;
    check_ok(close_a, "a")?;
    check_ok(close_c, "c")?;
    check_ok(close_s, "s")?;
    Ok(())
}

/// The client shuts down both ways.
pub fn net_tcp_shutdown_rdwr(
    pair: TestResult,
    shutdown: Sys,
    close_a: Sys,
    close_c: Sys,
    close_s: Sys,
) -> (r: TestResult)
    ensures
        r == guard(nested(pair), guard(ok(shutdown, "shut"), guard(ok(close_a, "a"),
            guard(ok(close_c, "c"), guard(ok(close_s, "s"), passed()))))),
{
    pair?;
    check_ok(shutdown, "shut")?;
    check_ok(close_a, "a")?;
    check_ok(close_c, "c")?;
    check_ok(close_s, "s")?;
    Ok(())
}

/// After shutting down writing, the client still has an IPv4 peer with a
/// port.
pub fn net_getpeername_after_shutdown(
    pair: TestResult,
    shutdown: Sys,
    peer: Sys,
    family: u16,
    port: u16,
    close_a: Sys,
    close_c: Sys,
    close_s: Sys,
) -> (r: TestResult)
    ensures
        r == guard(nested(pair), guard(ok(shutdown, "shut"), guard(ok(peer, "peer"),
            guard(that(family == AF_INET as u16, "fam"), guard(that(port != 0, "port"),
            guard(ok(close_a, "a"), guard(ok(close_c, "c"), guard(ok(close_s, "s"), passed())))))))),
{
    pair?;
    check_ok(shutdown, "shut")?;
    check_ok(peer, "peer")?;
    check(family == AF_INET as u16, "fam")?;
    check(port != 0, "port")?;
    check_ok(close_a, "a")?;
    check_ok(close_c, "c")?;
    check_ok(close_s, "s")?;
    Ok(())
}

/// An empty nonblocking UDP socket's `MSG_DONTWAIT` receive fails with
/// EAGAIN.
pub fn net_msg_dontwait_eagain(udp: Sys, bind: Sys, recv: SysVal, close_u: Sys) -> (r: TestResult)
    ensures
        r == guard(ok(udp, "udp"), guard(ok(bind, "bind"), guard(errs(recv, EAGAIN, "eagain"),
            guard(ok(close_u, "cu"), passed())))),
{
    check_ok(udp, "udp")?;
    check_ok(bind, "bind")?;
    check_err(recv, EAGAIN, "eagain")?;
    check_ok(close_u, "cu")?;
    Ok(())
}

/// An idle nonblocking TCP socket's `MSG_DONTWAIT` receive fails with EAGAIN
/// (`setfl` sets `nonblock_flags` of what `getfl` gave).
pub fn net_tcp_msg_dontwait_empty(
    pair: TestResult,
    getfl: Sys,
    setfl: Sys,
    recv: SysVal,
    close_a: Sys,
    close_c: Sys,
    close_s: Sys,
) -> (r: TestResult)
    ensures
        r == guard(nested(pair), guard(ok(getfl, "getfl"), guard(ok(setfl, "setfl"),
            guard(errs(recv, EAGAIN, "eagain"), guard(ok(close_a, "a"), guard(ok(close_c, "c"),
            guard(ok(close_s, "s"), passed()))))))),
{
    pair?;
    check_ok(getfl, "getfl")?;
    check_ok(setfl, "setfl")?;
    check_err(recv, EAGAIN, "eagain")?;
    check_ok(close_a, "a")?;
    check_ok(close_c, "c")?;
    check_ok(close_s, "s")?;
    Ok(())
}

/// `SO_KEEPALIVE` set reads back 1, or setting it is refused with
/// ENOPROTOOPT, EINVAL or ENOSYS.
pub fn net_so_keepalive_set_get(
    socket: Sys,
    set: Sys,
    get: Sys,
    val: [u8; 4],
    close: Sys,
) -> (r: TestResult)
    ensures
        r == guard(ok(socket, "s"), guard(only_if(set is Ok, ok(get, "get")),
            guard(only_if(set is Ok, that(le_u32(val@) as i32 == 1, "ka")),
            guard(that(set is Ok || set->Err_0.0 == ENOPROTOOPT || set->Err_0.0 == EINVAL || set->Err_0.0 == ENOSYS, "keepalive"),
            guard(ok(close, "c"), passed()))))),
{
    check_ok(socket, "s")?;
    if set.is_ok() {
        check_ok(get, "get")?;
        check(i32_from_ne_bytes(val) == 1, "ka")?;
    }
    check(match set { Ok(_) => true, Err(e) => e.0 == ENOPROTOOPT || e.0 == EINVAL || e.0 == ENOSYS }, "keepalive")?;
    check_ok(close, "c")?;
    Ok(())
}

/// `SO_LINGER` sets, or is refused with EINVAL, ENOSYS or ENOPROTOOPT.
pub fn net_so_linger_soft(socket: Sys, set: Sys, close: Sys) -> (r: TestResult)
    ensures
        r == guard(ok(socket, "s"),
            guard(that(set is Ok || set->Err_0.0 == EINVAL || set->Err_0.0 == ENOSYS || set->Err_0.0 == ENOPROTOOPT, "linger"),
            guard(ok(close, "c"), passed()))),
{
    check_ok(socket, "s")?;
    check(match set { Ok(_) => true, Err(e) => e.0 == EINVAL || e.0 == ENOSYS || e.0 == ENOPROTOOPT }, "linger")?;
    check_ok(close, "c")?;
    Ok(())
}

/// A send buffer set reads back positive.
pub fn net_so_sndbuf_set(
    socket: Sys,
    set: Sys,
    get: Sys,
    val: [u8; 4],
    close: Sys,
) -> (r: TestResult)
    ensures
        r == guard(ok(socket, "s"), guard(ok(set, "set"), guard(ok(get, "get"),
            guard(that(le_u32(val@) as i32 > 0, "sndbuf"), guard(ok(close, "c"), passed()))))),
{
    check_ok(socket, "s")?;
    check_ok(set, "set")?;
    check_ok(get, "get")?;
    check(i32_from_ne_bytes(val) > 0, "sndbuf")?;
    check_ok(close, "c")?;
    Ok(())
}

/// "xy" crosses the connection.
pub fn net_tcp_small_payload(
    pair: TestResult,
    send: Sys,
    recv: SysVal,
    buf: &[u8],
    close_a: Sys,
    close_c: Sys,
    close_s: Sys,
) -> (r: TestResult)
    ensures
        r == guard(nested(pair), guard(ok(send, "send"), guard(ok(recv, "recv"),
            guard(that((recv->Ok_0) == 2, "n"), guard(that(buf@ == "xy".spec_bytes(), "d"),
            guard(ok(close_a, "a"), guard(ok(close_c, "c"), guard(ok(close_s, "s"), passed())))))))),
{
    pair?;
    check_ok(send, "send")?;
    let n = check_ok(recv, "recv")?;
    check(n == 2, "n")?;
    check(bytes_eq(&buf, "xy".as_bytes()), "d")?;
    check_ok(close_a, "a")?;
    check_ok(close_c, "c")?;
    check_ok(close_s, "s")?;
    Ok(())
}

/// 1024 bytes of 0xA5 cross the connection whole (`sent` and `got`: the
/// loops of `transfer_step` with progress checks "progress" and "rprog").
pub fn net_tcp_large_payload_1k(
    pair: TestResult,
    sent: TestResult,
    got: TestResult,
    buf: &[u8],
    close_a: Sys,
    close_c: Sys,
    close_s: Sys,
) -> (r: TestResult)
    ensures
        r == guard(nested(pair), guard(nested(sent), guard(nested(got),
            guard(that(buf@.len() == 1024 && all_bytes(buf@, 0xA5), "data"),
            guard(ok(close_a, "a"), guard(ok(close_c, "c"), guard(ok(close_s, "s"), passed()))))))),
{
    pair?;
    sent?;
    got?;
    check(buf.len() == 1024 && all_bytes_are(buf, 0xA5), "data")?;
    check_ok(close_a, "a")?;
    check_ok(close_c, "c")?;
    check_ok(close_s, "s")?;
    Ok(())
}

/// The outcome of a transfer loop as a test step: a pass once it ended
/// without failing.
pub open spec fn loop_step(r: Result<int, AssertFail>) -> TestResult {
    match r {
        Ok(_) => Ok(()),
        Err(f) => Err(f),
    }
}

/// 4096 bytes cross the connection: `sends` are the results of the send
/// loop, run as `transfer_loop` with progress check "progress" (so it makes
/// at most 4096 sends, see `lemma_transfer_loop_ends`), `recvs` those of
/// the receive loop, with progress check "r".
pub fn net_tcp_large_payload_4k(
    pair: TestResult,
    sends: &[SysVal],
    recvs: &[SysVal],
    close_a: Sys,
    close_c: Sys,
    close_s: Sys,
) -> (r: TestResult)
    requires
        forall|i: int| 0 <= i < sends@.len() && sends@[i] is Ok ==> 0 <= #[trigger] sends@[i]->Ok_0 <= 4096,
        forall|i: int| 0 <= i < recvs@.len() && recvs@[i] is Ok ==> 0 <= #[trigger] recvs@[i]->Ok_0 <= 4096,
    ensures
        r == guard(nested(pair), guard(nested(loop_step(transfer_loop(0, 4096, sends@, "send", Some("progress")))),
            guard(nested(loop_step(transfer_loop(0, 4096, recvs@, "recv", Some("r")))),
            guard(ok(close_a, "a"), guard(ok(close_c, "c"), guard(ok(close_s, "s"), passed())))))),
{
    pair?;
    run_transfer(4096, sends, "send", Some("progress"))?;
    run_transfer(4096, recvs, "recv", Some("r"))?;
    check_ok(close_a, "a")?;
    check_ok(close_c, "c")?;
    check_ok(close_s, "s")?;
    Ok(())
}

/// "udp-hi" crosses UDP on loopback.
pub fn net_udp_send_recv(
    srv: Sys,
    bind: Sys,
    name: Sys,
    cli: Sys,
    send: SysVal,
    recv: SysVal,
    buf: &[u8],
    close_c: Sys,
    close_s: Sys,
) -> (r: TestResult)
    requires
        recv is Ok ==> 0 <= recv->Ok_0 <= buf@.len(),
    ensures
        r == guard(ok(srv, "srv"), guard(ok(bind, "bind"), guard(ok(name, "name"),
            guard(ok(cli, "cli"), guard(ok(send, "sendto"), guard(that((send->Ok_0) == 6, "n"),
            guard(ok(recv, "recv"),
            guard(that(buf@.subrange(0, (recv->Ok_0) as int) == "udp-hi".spec_bytes(), "d"),
            guard(ok(close_c, "c"), guard(ok(close_s, "s"), passed())))))))))),
{
    check_ok(srv, "srv")?;
    check_ok(bind, "bind")?;
    check_ok(name, "name")?;
    check_ok(cli, "cli")?;
    let s = check_ok(send, "sendto")?;
    check(s == 6, "n")?;
    let n = check_ok(recv, "recv")?;
    let blen: usize = buf.len();
    proof { assert(n <= blen); }
    check(head_is(buf, n as usize, "udp-hi".as_bytes()), "d")?;
    check_ok(close_c, "c")?;
    check_ok(close_s, "s")?;
    Ok(())
}

/// An empty UDP socket's `MSG_DONTWAIT` receive fails with EAGAIN.
pub fn net_udp_msg_dontwait(udp: Sys, bind: Sys, recv: SysVal, close: Sys) -> (r: TestResult)
    ensures
        r == guard(ok(udp, "u"), guard(ok(bind, "bind"), guard(errs(recv, EAGAIN, "eagain"),
            guard(ok(close, "c"), passed())))),
{
    check_ok(udp, "u")?;
    check_ok(bind, "bind")?;
    check_err(recv, EAGAIN, "eagain")?;
    check_ok(close, "c")?;
    Ok(())
}

/// A 512-byte datagram crosses UDP whole.
pub fn net_udp_large_payload(
    srv: Sys,
    bind: Sys,
    name: Sys,
    cli: Sys,
    send: SysVal,
    recv: SysVal,
    close_c: Sys,
    close_s: Sys,
) -> (r: TestResult)
    ensures
        r == guard(ok(srv, "srv"), guard(ok(bind, "bind"), guard(ok(name, "name"),
            guard(ok(cli, "cli"), guard(ok(send, "sendto"), guard(that((send->Ok_0) == 512, "n"),
            guard(ok(recv, "recv"), guard(that((recv->Ok_0) == 512, "r"), guard(ok(close_c, "c"),
            guard(ok(close_s, "s"), passed())))))))))),
{
    check_ok(srv, "srv")?;
    check_ok(bind, "bind")?;
    check_ok(name, "name")?;
    check_ok(cli, "cli")?;
    let s = check_ok(send, "sendto")?;
    check(s == 512, "n")?;
    let n = check_ok(recv, "recv")?;
    check(n == 512, "r")?;
    check_ok(close_c, "c")?;
    check_ok(close_s, "s")?;
    Ok(())
}

/// A send after shutting down writing fails with EPIPE, EINVAL or
/// ECONNRESET, or succeeds.
pub fn net_tcp_shutdown_then_send_fails_soft(
    pair: TestResult,
    shutdown: Sys,
    send: SysVal,
    close_a: Sys,
    close_c: Sys,
    close_s: Sys,
) -> (r: TestResult)
    ensures
        r == guard(nested(pair), guard(ok(shutdown, "shut"),
            guard(that(send is Ok || send->Err_0.0 == EPIPE || send->Err_0.0 == EINVAL || send->Err_0.0 == ECONNRESET, "send after shut"),
            guard(ok(close_a, "a"), guard(ok(close_c, "c"), guard(ok(close_s, "s"), passed())))))),
{
    pair?;
    check_ok(shutdown, "shut")?;
    check(match send { Ok(_) => true, Err(e) => e.0 == EPIPE || e.0 == EINVAL || e.0 == ECONNRESET }, "send after shut")?;
    check_ok(close_a, "a")?;
    check_ok(close_c, "c")?;
    check_ok(close_s, "s")?;
    Ok(())
}

/// The server end shuts down reading after data arrived.
pub fn net_tcp_bidirectional_shutdown_rd_on_acc(
    pair: TestResult,
    send: Sys,
    shutdown: Sys,
    close_a: Sys,
    close_c: Sys,
    close_s: Sys,
) -> (r: TestResult)
    ensures
        r == guard(nested(pair), guard(ok(send, "send"), guard(ok(shutdown, "shut rd"),
            guard(ok(close_a, "a"), guard(ok(close_c, "c"), guard(ok(close_s, "s"), passed())))))),
{
    pair?;
    check_ok(send, "send")?;
    check_ok(shutdown, "shut rd")?;
    check_ok(close_a, "a")?;
    check_ok(close_c, "c")?;
    check_ok(close_s, "s")?;
    Ok(())
}

/// The listen's name keeps its port.
pub fn net_getsockname_after_listen(
    listen: TestResult,
    name: Sys,
    port: u16,
    bound_port: u16,
    close: Sys,
) -> (r: TestResult)
    ensures
        r == guard(nested(listen), guard(ok(name, "name"), guard(that(port == bound_port, "port"),
            guard(ok(close, "c"), passed())))),
{
    listen?;
    check_ok(name, "name")?;
    check(port == bound_port, "port")?;
    check_ok(close, "c")?;
    Ok(())
}

/// `accept4(SOCK_CLOEXEC)` sets close-on-exec.
pub fn net_tcp_accept_cloexec(
    listen: TestResult,
    cli: Sys,
    connect: Sys,
    accept: Sys,
    getfd: SysVal,
    close_a: Sys,
    close_c: Sys,
    close_s: Sys,
) -> (r: TestResult)
    ensures
        r == guard(nested(listen), guard(ok(cli, "cli"), guard(ok(connect, "conn"),
            guard(ok(accept, "acc"), guard(ok(getfd, "fd"),
            guard(that((getfd->Ok_0) & FD_CLOEXEC != 0, "cloexec"), guard(ok(close_a, "a"),
            guard(ok(close_c, "c"), guard(ok(close_s, "s"), passed()))))))))),
{
    listen?;
    check_ok(cli, "cli")?;
    check_ok(connect, "conn")?;
    check_ok(accept, "acc")?;
    let fl = check_ok(getfd, "fd")?;
    check(fl & FD_CLOEXEC != 0, "cloexec")?;
    check_ok(close_a, "a")?;
    check_ok(close_c, "c")?;
    check_ok(close_s, "s")?;
    Ok(())
}

/// A connected UDP socket sends one byte.
pub fn net_udp_connect_send(
    srv: Sys,
    bind: Sys,
    name: Sys,
    cli: Sys,
    connect: Sys,
    send: Sys,
    recv: SysVal,
    close_c: Sys,
    close_s: Sys,
) -> (r: TestResult)
    ensures
        r == guard(ok(srv, "srv"), guard(ok(bind, "bind"), guard(ok(name, "name"),
            guard(ok(cli, "cli"), guard(ok(connect, "conn"), guard(ok(send, "send"),
            guard(ok(recv, "recv"), guard(that((recv->Ok_0) == 1, "n"), guard(ok(close_c, "c"),
            guard(ok(close_s, "s"), passed())))))))))),
{
    check_ok(srv, "srv")?;
    check_ok(bind, "bind")?;
    check_ok(name, "name")?;
    check_ok(cli, "cli")?;
    check_ok(connect, "conn")?;
    check_ok(send, "send")?;
    let n = check_ok(recv, "recv")?;
    check(n == 1, "n")?;
    check_ok(close_c, "c")?;
    check_ok(close_s, "s")?;
    Ok(())
}

/// Clearing `SO_KEEPALIVE` on a TCP socket is tolerated.
pub fn net_so_keepalive_off(socket: Sys, close: Sys) -> (r: TestResult)
    ensures
        r == guard(ok(socket, "s"), guard(ok(close, "c"), passed())),
{
    check_ok(socket, "s")?;
    check_ok(close, "c")?;
    Ok(())
}

/// One payload of `net_tcp_multi_send_recv` (`multi_payload`) crosses the
/// connection.
pub fn multi_round(msg: &[u8], send: Sys, recv: SysVal, buf: &[u8]) -> (r: TestResult)
    requires
        recv is Ok ==> 0 <= recv->Ok_0 <= buf@.len(),
    ensures
        r == guard(ok(send, "send"), guard(ok(recv, "recv"),
            guard(that(buf@.subrange(0, (recv->Ok_0) as int) == msg@, "d"), passed()))),
{
    check_ok(send, "send")?;
    let n = check_ok(recv, "recv")?;
    let blen: usize = buf.len();
    proof { assert(n <= blen); }
    check(head_is(buf, n as usize, msg), "d")?;
    Ok(())
}

/// "a", "bb" and "ccc" cross the connection in turn (`multi_round`).
pub fn net_tcp_multi_send_recv(
    pair: TestResult,
    rounds: &[TestResult],
    close_a: Sys,
    close_c: Sys,
    close_s: Sys,
) -> (r: TestResult)
    ensures
        r == guard(nested(pair), guard(nested(first_failure(rounds@)), guard(ok(close_a, "a"),
            guard(ok(close_c, "c"), guard(ok(close_s, "s"), passed()))))),
{
    pair?;
    all_passed(rounds)?;
    check_ok(close_a, "a")?;
    check_ok(close_c, "c")?;
    check_ok(close_s, "s")?;
    Ok(())
}

/// Shutting down a listen succeeds or fails with ENOTCONN or EINVAL.
pub fn net_shutdown_listen_fd_soft(listen: TestResult, shutdown: Sys, close: Sys) -> (r: TestResult)
    ensures
        r == guard(nested(listen),
            guard(that(shutdown is Ok || shutdown->Err_0.0 == ENOTCONN || shutdown->Err_0.0 == EINVAL, "shutdown listen"),
            guard(ok(close, "c"), passed()))),
{
    listen?;
    check(match shutdown { Ok(_) => true, Err(e) => e.0 == ENOTCONN || e.0 == EINVAL }, "shutdown listen")?;
    check_ok(close, "c")?;
    Ok(())
}

/// A listen with backlog 2 accepts two clients.
pub fn net_tcp_backlog_two_clients_soft(
    listen: TestResult,
    c1: Sys,
    c2: Sys,
    conn1: Sys,
    conn2: Sys,
    a1: Sys,
    a2: Sys,
    close_a1: Sys,
    close_a2: Sys,
    close_c1: Sys,
    close_c2: Sys,
    close_s: Sys,
) -> (r: TestResult)
    ensures
        r == guard(nested(listen), guard(ok(c1, "c1"), guard(ok(c2, "c2"),
            guard(ok(conn1, "conn1"), guard(ok(conn2, "conn2"), guard(ok(a1, "a1"),
            guard(ok(a2, "a2"), guard(ok(close_a1, "a1c"), guard(ok(close_a2, "a2c"),
            guard(ok(close_c1, "c1c"), guard(ok(close_c2, "c2c"),
            guard(ok(close_s, "s"), passed())))))))))))),
{
    listen?;
    check_ok(c1, "c1")?;
    check_ok(c2, "c2")?;
    check_ok(conn1, "conn1")?;
    check_ok(conn2, "conn2")?;
    check_ok(a1, "a1")?;
    check_ok(a2, "a2")?;
    check_ok(close_a1, "a1c")?;
    check_ok(close_a2, "a2c")?;
    check_ok(close_c1, "c1c")?;
    check_ok(close_c2, "c2c")?;
    check_ok(close_s, "s")?;
    Ok(())
}

/// An empty datagram is received as zero bytes.
pub fn net_udp_zero_len_sendto(
    srv: Sys,
    bind: Sys,
    name: Sys,
    cli: Sys,
    send: SysVal,
    recv: SysVal,
    close_c: Sys,
    close_s: Sys,
) -> (r: TestResult)
    ensures
        r == guard(ok(srv, "srv"), guard(ok(bind, "bind"), guard(ok(name, "name"),
            guard(ok(cli, "cli"), guard(ok(send, "sendto"), guard(that((send->Ok_0) == 0, "n"),
            guard(ok(recv, "recv"), guard(that((recv->Ok_0) == 0, "r"), guard(ok(close_c, "c"),
            guard(ok(close_s, "s"), passed())))))))))),
{
    check_ok(srv, "srv")?;
    check_ok(bind, "bind")?;
    check_ok(name, "name")?;
    check_ok(cli, "cli")?;
    let s = check_ok(send, "sendto")?;
    check(s == 0, "n")?;
    let n = check_ok(recv, "recv")?;
    check(n == 0, "r")?;
    check_ok(close_c, "c")?;
    check_ok(close_s, "s")?;
    Ok(())
}

/// An unconnected socket's peer fails with ENOTCONN or EINVAL, or reads.
pub fn net_getpeername_unconnected_soft(socket: Sys, peer: Sys, close: Sys) -> (r: TestResult)
    ensures
        r == guard(ok(socket, "s"),
            guard(that(peer is Ok || peer->Err_0.0 == ENOTCONN || peer->Err_0.0 == EINVAL, "peer"),
            guard(ok(close, "c"), passed()))),
{
    check_ok(socket, "s")?;
    check(match peer { Ok(_) => true, Err(e) => e.0 == ENOTCONN || e.0 == EINVAL }, "peer")?;
    check_ok(close, "c")?;
    Ok(())
}

} // verus!
