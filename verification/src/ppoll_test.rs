//! `ppoll` with and without a timeout.

use vstd::prelude::*;
use crate::abi::POLLIN;
use crate::harness::{Sys, SysVal, TestResult, check, check_ok, guard, ok, passed, that};

verus! {

/// A pipe with a byte in it is reported readable within a one-second
/// `ppoll`.
pub fn ppoll_pipe_readable(
    pipe: Sys,
    write: Sys,
    ppoll: SysVal,
    revents: i64,
    close_r: Sys,
    close_w: Sys,
) -> (r: TestResult)
    ensures
        r == guard(ok(pipe, "pipe2"), guard(ok(write, "write"), guard(ok(ppoll, "ppoll"),
            guard(that((ppoll->Ok_0) == 1, "ready"), guard(that(revents & POLLIN != 0, "POLLIN"),
            guard(ok(close_r, "close r"), guard(ok(close_w, "close w"), passed()))))))),
{
    check_ok(pipe, "pipe2")?;
    check_ok(write, "write")?;
    let n = check_ok(ppoll, "ppoll")?;
    check(n == 1, "ready")?;
    check(revents & POLLIN != 0, "POLLIN")?;
    check_ok(close_r, "close r")?;
    check_ok(close_w, "close w")?;
    Ok(())
}

/// An empty pipe's 20 ms `ppoll` times out with no events.
pub fn ppoll_timeout_empty(
    pipe: Sys,
    ppoll: SysVal,
    revents: i64,
    close_r: Sys,
    close_w: Sys,
) -> (r: TestResult)
    ensures
        r == guard(ok(pipe, "pipe2"), guard(ok(ppoll, "ppoll"),
            guard(that((ppoll->Ok_0) == 0, "timeout"), guard(that(revents == 0, "no revents"),
            guard(ok(close_r, "close r"), guard(ok(close_w, "close w"), passed())))))),
{
    check_ok(pipe, "pipe2")?;
    let n = check_ok(ppoll, "ppoll")?;
    check(n == 0, "timeout")?;
    check(revents == 0, "no revents")?;
    check_ok(close_r, "close r")?;
    check_ok(close_w, "close w")?;
    Ok(())
}

/// Without a timeout, `ppoll` returns at once for a pipe with data.
pub fn ppoll_null_timeout_immediate(
    pipe: Sys,
    write: Sys,
    ppoll: SysVal,
    close_r: Sys,
    close_w: Sys,
) -> (r: TestResult)
    ensures
        r == guard(ok(pipe, "pipe2"), guard(ok(write, "write"), guard(ok(ppoll, "ppoll"),
            guard(that((ppoll->Ok_0) == 1, "ready"), guard(ok(close_r, "close r"),
            guard(ok(close_w, "close w"), passed())))))),
{
    check_ok(pipe, "pipe2")?;
    check_ok(write, "write")?;
    let n = check_ok(ppoll, "ppoll")?;
    check(n == 1, "ready")?;
    check_ok(close_r, "close r")?;
    check_ok(close_w, "close w")?;
    Ok(())
}

/// A zero timeout reports an empty pipe not ready.
pub fn ppoll_zero_timespec(pipe: Sys, ppoll: SysVal, close_r: Sys, close_w: Sys) -> (r: TestResult)
    ensures
        r == guard(ok(pipe, "pipe2"), guard(ok(ppoll, "ppoll"),
            guard(that((ppoll->Ok_0) == 0, "not ready"), guard(ok(close_r, "close r"),
            guard(ok(close_w, "close w"), passed()))))),
{
    check_ok(pipe, "pipe2")?;
    let n = check_ok(ppoll, "ppoll")?;
    check(n == 0, "not ready")?;
    check_ok(close_r, "close r")?;
    check_ok(close_w, "close w")?;
    Ok(())
}

/// Of two pipes, only the one with data is reported.
pub fn ppoll_two_fds_one_ready(
    pipe1: Sys,
    pipe2: Sys,
    write: Sys,
    ppoll: SysVal,
    revents2: i64,
    close_r1: Sys,
    close_w1: Sys,
    close_r2: Sys,
    close_w2: Sys,
) -> (r: TestResult)
    ensures
        r == guard(ok(pipe1, "pipe1"), guard(ok(pipe2, "pipe2"), guard(ok(write, "write"),
            guard(ok(ppoll, "ppoll"), guard(that((ppoll->Ok_0) == 1, "one ready"),
            guard(that(revents2 & POLLIN != 0, "r2 POLLIN"), guard(ok(close_r1, "close r1"),
            guard(ok(close_w1, "close w1"), guard(ok(close_r2, "close r2"),
            guard(ok(close_w2, "close w2"), passed())))))))))),
{
    check_ok(pipe1, "pipe1")?;
    check_ok(pipe2, "pipe2")?;
    check_ok(write, "write")?;
    let n = check_ok(ppoll, "ppoll")?;
    check(n == 1, "one ready")?;
    check(revents2 & POLLIN != 0, "r2 POLLIN")?;
    check_ok(close_r1, "close r1")?;
    check_ok(close_w1, "close w1")?;
    check_ok(close_r2, "close r2")?;
    check_ok(close_w2, "close w2")?;
    Ok(())
}

} // verus!
