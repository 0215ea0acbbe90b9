//! `pselect6` with read and write sets and timeouts.

use vstd::prelude::*;
use crate::harness::{Sys, SysVal, TestResult, check, check_ok, guard, ok, passed, that};

verus! {

/// A pipe with a byte in it is selected readable (`set`: its bit is still
/// set in the read set after the call).
pub fn pselect6_pipe_readable(
    pipe: Sys,
    write: Sys,
    select: SysVal,
    set: bool,
    close_r: Sys,
    close_w: Sys,
) -> (r: TestResult)
    ensures
        r == guard(ok(pipe, "pipe2"), guard(ok(write, "write"), guard(ok(select, "pselect6"),
            guard(that((select->Ok_0) == 1, "ready"), guard(that(set, "fd set"),
            guard(ok(close_r, "close r"), guard(ok(close_w, "close w"), passed()))))))),
{
    check_ok(pipe, "pipe2")?;
    check_ok(write, "write")?;
    let n = check_ok(select, "pselect6")?;
    check(n == 1, "ready")?;
    check(set, "fd set")?;
    check_ok(close_r, "close r")?;
    check_ok(close_w, "close w")?;
    Ok(())
}

/// An empty pipe's 20 ms select times out.
pub fn pselect6_timeout(pipe: Sys, select: SysVal, close_r: Sys, close_w: Sys) -> (r: TestResult)
    ensures
        r == guard(ok(pipe, "pipe2"), guard(ok(select, "pselect6"),
            guard(that((select->Ok_0) == 0, "timeout"), guard(ok(close_r, "close r"),
            guard(ok(close_w, "close w"), passed()))))),
{
    check_ok(pipe, "pipe2")?;
    let n = check_ok(select, "pselect6")?;
    check(n == 0, "timeout")?;
    check_ok(close_r, "close r")?;
    check_ok(close_w, "close w")?;
    Ok(())
}

/// A zero timeout reports an empty pipe not ready.
pub fn pselect6_zero_timeout(
    pipe: Sys,
    select: SysVal,
    close_r: Sys,
    close_w: Sys,
) -> (r: TestResult)
    ensures
        r == guard(ok(pipe, "pipe2"), guard(ok(select, "pselect6"),
            guard(that((select->Ok_0) == 0, "not ready"), guard(ok(close_r, "close r"),
            guard(ok(close_w, "close w"), passed()))))),
{
    check_ok(pipe, "pipe2")?;
    let n = check_ok(select, "pselect6")?;
    check(n == 0, "not ready")?;
    check_ok(close_r, "close r")?;
    check_ok(close_w, "close w")?;
    Ok(())
}

/// A pipe's write end is selected writable.
pub fn pselect6_writefds_pipe(
    pipe: Sys,
    select: SysVal,
    set: bool,
    close_r: Sys,
    close_w: Sys,
) -> (r: TestResult)
    ensures
        r == guard(ok(pipe, "pipe2"), guard(ok(select, "pselect6"),
            guard(that((select->Ok_0) >= 1, "writable"), guard(that(set, "w set"),
            guard(ok(close_r, "close r"), guard(ok(close_w, "close w"), passed())))))),
{
    check_ok(pipe, "pipe2")?;
    let n = check_ok(select, "pselect6")?;
    check(n >= 1, "writable")?;
    check(set, "w set")?;
    check_ok(close_r, "close r")?;
    check_ok(close_w, "close w")?;
    Ok(())
}

/// With no sets, select just waits and reports nothing.
pub fn pselect6_null_sets(select: SysVal) -> (r: TestResult)
    ensures
        r == guard(ok(select, "pselect6"), guard(that((select->Ok_0) == 0, "no fds"), passed())),
{
    let n = check_ok(select, "pselect6")?;
    check(n == 0, "no fds")?;
    Ok(())
}

} // verus!
