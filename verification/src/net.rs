//! Polling and stream sockets: `poll`, `epoll` and socketpairs.

use vstd::prelude::*;
use vstd::string::StringSliceAdditionalSpecFns;
use crate::abi::{EPOLLIN, POLLIN};
use crate::bytes::bytes_eq;
use crate::harness::{
    AssertFail, Sys, SysVal, TestResult, check, check_ok, guard, nested, ok, passed, that,
};
use crate::spawn_ipc::{all_bytes, all_bytes_are};

verus! {

/// The step of the receive loop of `socketpair_large_message` with `got`
/// of 512 bytes in: the new count and whether to stop (end of stream, or
/// all 512 in).
pub fn large_recv_step(got: usize, recv: SysVal) -> (r: Result<(usize, bool), AssertFail>)
    requires
        got < 512,
        recv is Ok ==> 0 <= recv->Ok_0 <= 512 - got,
    ensures
        r == (match recv {
            Err(e) => Err(AssertFail { msg: "recv", errno: Some(e) }),
            Ok(n) => if n == 0 { Ok((got, true)) } else { Ok(((got + n) as usize, got + n >= 512)) },
        }),
{
    let n = check_ok(recv, "recv")?;
    if n == 0 {
        Ok((got, true))
    } else {
        let g = got + n as usize;
        Ok((g, g >= 512))
    }
}

/// A pipe with a byte in it polls readable.
pub fn poll_pipe_readable(
    pipe: Sys,
    write: Sys,
    poll: SysVal,
    revents: i64,
    close_r: Sys,
    close_w: Sys,
) -> (r: TestResult)
    ensures
        r == guard(ok(pipe, "pipe2"), guard(ok(write, "write"), guard(ok(poll, "poll"),
            guard(that((poll->Ok_0) == 1, "poll count"),
            guard(that(revents & POLLIN != 0, "POLLIN"), guard(ok(close_r, "close r"),
            guard(ok(close_w, "close w"), passed()))))))),
{
    check_ok(pipe, "pipe2")?;
    check_ok(write, "write")?;
    let n = check_ok(poll, "poll")?;
    check(n == 1, "poll count")?;
    check(revents & POLLIN != 0, "POLLIN")?;
    check_ok(close_r, "close r")?;
    check_ok(close_w, "close w")?;
    Ok(())
}

/// An empty pipe's poll times out with no events.
pub fn poll_pipe_timeout(pipe: Sys, poll: SysVal, close_r: Sys, close_w: Sys) -> (r: TestResult)
    ensures
        r == guard(ok(pipe, "pipe2"), guard(ok(poll, "poll timeout"),
            guard(that((poll->Ok_0) == 0, "no events"), guard(ok(close_r, "close r"),
            guard(ok(close_w, "close w"), passed()))))),
{
    check_ok(pipe, "pipe2")?;
    let n = check_ok(poll, "poll timeout")?;
    check(n == 0, "no events")?;
    check_ok(close_r, "close r")?;
    check_ok(close_w, "close w")?;
    Ok(())
}

/// epoll reports a pipe with a byte in it readable (`events`: the bits of
/// the first event).
pub fn epoll_pipe_readable(
    pipe: Sys,
    ep: Sys,
    ctl: Sys,
    write: Sys,
    wait: SysVal,
    events: u32,
    close_ep: Sys,
    close_r: Sys,
    close_w: Sys,
) -> (r: TestResult)
    ensures
        r == guard(ok(pipe, "pipe2"), guard(ok(ep, "epoll_create1"), guard(ok(ctl, "epoll_ctl"),
            guard(ok(write, "write"), guard(ok(wait, "epoll_wait"),
            guard(that((wait->Ok_0) == 1, "epoll count"),
            guard(that(events & (EPOLLIN as u32) != 0, "EPOLLIN"), guard(ok(close_ep, "close ep"),
            guard(ok(close_r, "close r"), guard(ok(close_w, "close w"), passed())))))))))),
{
    check_ok(pipe, "pipe2")?;
    check_ok(ep, "epoll_create1")?;
    check_ok(ctl, "epoll_ctl")?;
    check_ok(write, "write")?;
    let n = check_ok(wait, "epoll_wait")?;
    check(n == 1, "epoll count")?;
    check(events & (EPOLLIN as u32) != 0, "EPOLLIN")?;
    check_ok(close_ep, "close ep")?;
    check_ok(close_r, "close r")?;
    check_ok(close_w, "close w")?;
    Ok(())
}

/// "stream-msg" crosses a stream socketpair whole.
pub fn socketpair_send_recv_all(
    sp: Sys,
    send: SysVal,
    recv: SysVal,
    data: &[u8],
    close_a: Sys,
    close_b: Sys,
) -> (r: TestResult)
    ensures
        r == guard(ok(sp, "socketpair"), guard(ok(send, "send"),
            guard(that((send->Ok_0) == 10, "slen"), guard(ok(recv, "recv"),
            guard(that((recv->Ok_0) == 10, "rlen"),
            guard(that(data@ == "stream-msg".spec_bytes(), "data"), guard(ok(close_a, "close a"),
            guard(ok(close_b, "close b"), passed())))))))),
{
    check_ok(sp, "socketpair")?;
    let s = check_ok(send, "send")?;
    check(s == 10, "slen")?;
    let r = check_ok(recv, "recv")?;
    check(r == 10, "rlen")?;
    check(bytes_eq(&data, "stream-msg".as_bytes()), "data")?;
    check_ok(close_a, "close a")?;
    check_ok(close_b, "close b")?;
    Ok(())
}

/// After the peer shuts down writing, a read sees end of stream.
pub fn socketpair_half_close(
    sp: Sys,
    shutdown: Sys,
    read: SysVal,
    close_a: Sys,
    close_b: Sys,
) -> (r: TestResult)
    ensures
        r == guard(ok(sp, "socketpair"), guard(ok(shutdown, "shutdown wr"),
            guard(ok(read, "read after shutdown"), guard(that((read->Ok_0) == 0, "EOF"),
            guard(ok(close_a, "close a"), guard(ok(close_b, "close b"), passed())))))),
{
    check_ok(sp, "socketpair")?;
    check_ok(shutdown, "shutdown wr")?;
    let n = check_ok(read, "read after shutdown")?;
    check(n == 0, "EOF")?;
    check_ok(close_a, "close a")?;
    check_ok(close_b, "close b")?;
    Ok(())
}

/// 512 bytes of 0xAB cross a socketpair whole (`received`: the count the
/// receive loop reached, see `large_recv_step`; `buf`: the 512-byte buffer).
pub fn socketpair_large_message(
    sp: Sys,
    send: SysVal,
    received: Result<usize, AssertFail>,
    buf: &[u8],
    close_a: Sys,
    close_b: Sys,
) -> (r: TestResult)
    ensures
        r == guard(ok(sp, "socketpair"), guard(ok(send, "send"),
            guard(that((send->Ok_0) == 512, "slen"), guard(nested(received),
            guard(that(received->Ok_0 == 512, "full message"),
            guard(that(buf@.len() == 512 && all_bytes(buf@, 0xAB), "payload"),
            guard(ok(close_a, "close a"), guard(ok(close_b, "close b"), passed())))))))),
{
    check_ok(sp, "socketpair")?;
    let s = check_ok(send, "send")?;
    check(s == 512, "slen")?;
    let got = received?;
    check(got == 512, "full message")?;
    check(buf.len() == 512 && all_bytes_are(buf, 0xAB), "payload")?;
    check_ok(close_a, "close a")?;
    check_ok(close_b, "close b")?;
    Ok(())
}

} // verus!
