//! Inherited empty pipes across `fork`, `exec` and `poll`: a child blocked
//! on an empty pipe must not deadlock the parent's wait.

use vstd::prelude::*;
use vstd::string::StringSliceAdditionalSpecFns;
use crate::errno::{Errno, ECHILD};
use crate::harness::{
    AssertFail, ChildWait, Sys, SysVal, TestResult, check, check_ok, fail, failure, guard, nested, ok,
    only_if, passed, that,
};
use crate::plan::Act;
use crate::wait_status::{spec_exit_code, spec_term_sig, wexitstatus, wifexited};

verus! {

/// Whether `needle` occurs in `hay` at position `i`.
pub open spec fn occurs_at(hay: Seq<u8>, needle: Seq<u8>, i: int) -> bool {
    0 <= i && i + needle.len() <= hay.len() && hay.subrange(i, i + needle.len()) == needle
}

/// Whether the non-empty `needle` occurs somewhere in `hay`.
pub open spec fn spec_contains(hay: Seq<u8>, needle: Seq<u8>) -> bool {
    needle.len() > 0 && exists|i: int| occurs_at(hay, needle, i)
}

/// Searches `hay` for the non-empty byte string `needle`.
pub fn contains(hay: &[u8], needle: &[u8]) -> (r: bool)
    ensures
        r == spec_contains(hay@, needle@),
{
    if needle.len() == 0 || hay.len() < needle.len() {
        assert(!exists|i: int| occurs_at(hay@, needle@, i) && needle@.len() > 0);
        return false;
    }
    let last = hay.len() - needle.len();
    let mut i: usize = 0;
    while i <= last
        invariant
            last == hay.len() - needle.len(),
            needle.len() > 0,
            i <= last + 1,
            forall|j: int| 0 <= j < i ==> !occurs_at(hay@, needle@, j),
        decreases last + 1 - i,
    {
        let mut k: usize = 0;
        let mut same = true;
        while k < needle.len()
            invariant
                i <= last,
                last == hay.len() - needle.len(),
                k <= needle.len(),
                same == forall|m: int| 0 <= m < k ==> hay@[i + m] == needle@[m],
            decreases needle.len() - k,
        {
            if hay[i + k] != needle[k] {
                same = false;
            }
            k = k + 1;
        }
        if same {
            assert(hay@.subrange(i as int, i + needle@.len()) =~= needle@);
            assert(occurs_at(hay@, needle@, i as int));
            return true;
        }
        assert(hay@.subrange(i as int, i + needle@.len()) != needle@) by {
            let m = choose|m: int| 0 <= m < needle.len() && hay@[i + m] != needle@[m];
            assert(hay@.subrange(i as int, i + needle@.len())[m] == hay@[i + m]);
        }
        i = i + 1;
    }
    assert forall|j: int| !occurs_at(hay@, needle@, j) by {
        if 0 <= j && j + needle@.len() <= hay@.len() {
            assert(j < i);
        }
    }
    false
}

/// Whether a listing of `/` names one of the usual root entries.
pub open spec fn spec_has_root_entry(buf: Seq<u8>) -> bool {
    spec_contains(buf, "etc".spec_bytes()) || spec_contains(buf, "bin".spec_bytes())
        || spec_contains(buf, "usr".spec_bytes()) || spec_contains(buf, "tmp".spec_bytes())
}

/// Whether the output of `ls /` names `etc`, `bin`, `usr` or `tmp`.
pub fn contains_root_entry(buf: &[u8]) -> (r: bool)
    ensures
        r == spec_has_root_entry(buf@),
{
    contains(buf, "etc".as_bytes()) || contains(buf, "bin".as_bytes())
        || contains(buf, "usr".as_bytes()) || contains(buf, "tmp".as_bytes())
}

/// What the bounded wait for a child `pid` concludes from the results of
/// its `wait4(WNOHANG)` polls, each with the status it stored: the exit
/// code at the first poll that returns `pid` (the child must have exited
/// normally), a failure at the first poll that fails other than with
/// `ECHILD`, and "child hung" when the polls run out first.
pub open spec fn wait_polls(pid: i64, polls: Seq<(SysVal, i32)>) -> Result<int, AssertFail>
    decreases polls.len(),
{
    if polls.len() == 0 {
        Err(failure("child hung (pipe/wait deadlock?)"))
    } else {
        match polls[0].0 {
            Ok(p) => if p == pid {
                if spec_term_sig(polls[0].1) == 0 {
                    Ok(spec_exit_code(polls[0].1))
                } else {
                    Err(failure("exited"))
                }
            } else {
                wait_polls(pid, polls.drop_first())
            },
            Err(e) => if e.0 == ECHILD { wait_polls(pid, polls.drop_first()) } else { Err(failure("wait4")) },
        }
    }
}

/// The bounded wait gives an exit code only for a child that exited
/// normally: some poll returned `pid` with a status whose terminating
/// signal is 0, and the code is that status's exit code. A child reaped by
/// the first poll after dying of a signal fails the wait with "exited".
pub proof fn lemma_wait_polls_normal_exit(pid: i64, polls: Seq<(SysVal, i32)>)
    ensures
        wait_polls(pid, polls) is Ok ==> exists|i: int|
            0 <= i < polls.len() && polls[i].0 == Ok::<i64, Errno>(pid) && (polls[i].1 as u32) % 128 == 0
                && wait_polls(pid, polls)->Ok_0 == ((polls[i].1 as u32) / 256) % 256,
        polls.len() > 0 && polls[0].0 == Ok::<i64, Errno>(pid) && (polls[0].1 as u32) % 128 != 0
            ==> wait_polls(pid, polls) == Err::<int, AssertFail>(AssertFail { msg: "exited", errno: None }),
    decreases polls.len(),
{
    if polls.len() > 0 {
        lemma_wait_polls_normal_exit(pid, polls.drop_first());
        if wait_polls(pid, polls) is Ok && !(polls[0].0 == Ok::<i64, Errno>(pid)) {
            let t = polls.drop_first();
            let i = choose|i: int|
                0 <= i < t.len() && t[i].0 == Ok::<i64, Errno>(pid) && (t[i].1 as u32) % 128 == 0
                    && wait_polls(pid, t)->Ok_0 == ((t[i].1 as u32) / 256) % 256;
            assert(polls[i + 1] == t[i]);
        }
    }
}

/// How many `wait4(WNOHANG)` polls `wait_exit_status` makes at most, one
/// every 50 ms.
pub const WAIT_POLLS: usize = 200;

/// The exit code of child `pid`, from the results of its bounded
/// `wait4(WNOHANG)` polls, status word included (see `wait_polls`): at most
/// `WAIT_POLLS` of them, made one by one as `wait_exit_step` directs.
pub fn wait_exit_status(pid: i64, polls: &[(SysVal, i32)]) -> (r: Result<i32, AssertFail>)
    requires
        polls@.len() <= WAIT_POLLS,
    ensures
        match wait_polls(pid, polls@) {
            Ok(code) => r == Ok::<i32, AssertFail>(code as i32),
            Err(f) => r == Err::<i32, AssertFail>(f),
        },
{
    let mut i: usize = 0;
    assert(polls@.skip(0) =~= polls@);
    while i < polls.len()
        invariant
            i <= polls.len(),
            wait_polls(pid, polls@) == wait_polls(pid, polls@.skip(i as int)),
        decreases polls.len() - i,
    {
        assert(polls@.skip(i as int)[0] == polls@[i as int]);
        assert(polls@.skip(i as int).drop_first() =~= polls@.skip(i + 1));
        let (res, status) = polls[i];
        match res {
            Ok(p) => {
                if p == pid {
                    if !wifexited(status) {
                        return Err(fail("exited"));
                    }
                    return Ok(wexitstatus(status));
                }
            },
            Err(e) => {
                if e.0 != ECHILD {
                    return Err(fail("wait4"));
                }
            },
        }
        i = i + 1;
    }
    assert(polls@.skip(i as int) =~= Seq::<(SysVal, i32)>::empty());
    Err(fail("child hung (pipe/wait deadlock?)"))
}

/// The step of `wait_exit_status` after its `i`th `wait4(pid, WNOHANG)`
/// (`status`: the status word it stored): the exit code once it returned
/// `pid` for a normal exit; a failure when the child did not exit normally
/// or the poll failed other than with `ECHILD`; otherwise sleep 50 ms and
/// poll again, and after the last of `WAIT_POLLS` polls sleep, kill the
/// child with signal 9, reap it and fail with "child hung".
pub fn wait_exit_step(pid: i64, i: usize, poll: SysVal, status: i32) -> (r: ChildWait<i32>)
    requires
        i < WAIT_POLLS,
    ensures
        r == (match poll {
            Ok(p) if p == pid => if spec_term_sig(status) == 0 {
                ChildWait::Done(Ok(spec_exit_code(status) as i32))
            } else {
                ChildWait::Done(Err(failure("exited")))
            },
            Err(e) if e.0 != ECHILD => ChildWait::Done(Err(failure("wait4"))),
            _ => if i + 1 >= WAIT_POLLS {
                ChildWait::SleepThenKill(Err(failure("child hung (pipe/wait deadlock?)")))
            } else {
                ChildWait::<i32>::SleepThenPoll
            },
        }),
{
    match poll {
        Ok(p) => {
            if p == pid {
                if !wifexited(status) {
                    return ChildWait::Done(Err(fail("exited")));
                }
                return ChildWait::Done(Ok(wexitstatus(status)));
            }
        },
        Err(e) => {
            if e.0 != ECHILD {
                return ChildWait::Done(Err(fail("wait4")));
            }
        },
    }
    if i + 1 >= WAIT_POLLS {
        ChildWait::SleepThenKill(Err(fail("child hung (pipe/wait deadlock?)")))
    } else {
        ChildWait::SleepThenPoll
    }
}

/// Exit code of the child of `pipe_eof_when_writer_closed`: 0 when its read
/// of the pipe saw end of file, 2 when it read data, 3 when it failed.
pub fn eof_child_exit_code(read: SysVal) -> (code: i32)
    ensures
        code == (match read { Ok(n) => if n == 0 { 0i32 } else { 2i32 }, Err(_) => 3i32 }),
{
    match read {
        Ok(n) => if n == 0 { 0 } else { 2 },
        Err(_) => 3,
    }
}

/// Exit code of the child of `pipe_poll_timeout_writer_held`: 0 when its
/// `poll` of the empty pipe timed out, 2 when it reported readiness, 3 when
/// it failed.
pub fn poll_timeout_child_exit_code(poll: SysVal) -> (code: i32)
    ensures
        code == (match poll { Ok(n) => if n == 0 { 0i32 } else { 2i32 }, Err(_) => 3i32 }),
{
    match poll {
        Ok(n) => if n == 0 { 0 } else { 2 },
        Err(_) => 3,
    }
}

/// One read of the pipeline's output in `pipe_shell_pipeline_completes`:
/// with `n` bytes collected so far, the new total when reading goes on, or
/// `None` when it stops (end of stream, an error, or at least two bytes
/// collected).
pub fn pipeline_read_step(n: usize, read: Result<usize, Errno>) -> (next: (usize, bool))
    requires
        read is Ok ==> n + read->Ok_0 <= usize::MAX,
    ensures
        match read {
            Ok(k) => if k == 0 { next == (n, false) } else { next == ((n + k) as usize, n + k < 2) },
            Err(_) => next == (n, false),
        },
{
    match read {
        Ok(k) => if k == 0 { (n, false) } else { (n + k, n + k < 2) },
        Err(_) => (n, false),
    }
}

/// The parent's calls on the pipe ends (`r`, `w`) between its fork and its
/// bounded wait for the child: the tests that hold the writer close only
/// the read end; `pipe_eof_when_writer_closed` closes the read end, then
/// the write end, so that the child's read sees end of file.
pub open spec fn spec_parent_before_wait(r: i64, w: i64, writer_held: bool) -> Seq<Act> {
    if writer_held {
        seq![Act::Close(r)]
    } else {
        seq![Act::Close(r), Act::Close(w)]
    }
}

/// The parent's calls after its wait for the child: a test that held the
/// writer closes the write end once the wait gave an exit code; when the
/// wait failed, the test fails at once without it.
pub open spec fn spec_parent_after_wait(w: i64, writer_held: bool, waited: Result<i32, AssertFail>) -> Seq<Act> {
    if writer_held && waited is Ok {
        seq![Act::Close(w)]
    } else {
        seq![]
    }
}

/// The parent's calls between fork and wait (see `spec_parent_before_wait`).
pub fn parent_before_wait(r: i64, w: i64, writer_held: bool) -> (acts: Vec<Act>)
    ensures
        acts@ == spec_parent_before_wait(r, w, writer_held),
{
    if writer_held {
        vec![Act::Close(r)]
    } else {
        vec![Act::Close(r), Act::Close(w)]
    }
}

/// The parent's calls after the wait (see `spec_parent_after_wait`).
pub fn parent_after_wait(w: i64, writer_held: bool, waited: &Result<i32, AssertFail>) -> (acts: Vec<Act>)
    ensures
        acts@ == spec_parent_after_wait(w, writer_held, *waited),
{
    if writer_held && waited.is_ok() {
        vec![Act::Close(w)]
    } else {
        vec![]
    }
}

/// A test that holds the writer keeps the write end open until its wait
/// for the child has returned: the parent closes it neither before the
/// wait nor, when the wait failed, after it; it closes it exactly once
/// after a wait that returned.
pub proof fn lemma_writer_held_until_wait(r: i64, w: i64, waited: Result<i32, AssertFail>)
    requires
        r != w,
    ensures
        !spec_parent_before_wait(r, w, true).contains(Act::Close(w)),
        spec_parent_before_wait(r, w, true) == seq![Act::Close(r)],
        spec_parent_after_wait(w, true, waited) == (if waited is Ok { seq![Act::Close(w)] } else {
            Seq::<Act>::empty()
        }),
{
    assert(spec_parent_before_wait(r, w, true)[0] == Act::Close(r));
}

/// The parent's calls in the shell-output tests: right after the fork it
/// closes its copy of the output pipe's write end (`out_w`), before its
/// first read, so that the reads end when the shell's side closes; after
/// its read loop it closes the read end (`out_r`), before it checks.
pub fn shell_parent_closes(out_r: i64, out_w: i64, after_reads: bool) -> (acts: Vec<Act>)
    ensures
        acts@ == (if after_reads { seq![Act::Close(out_r)] } else { seq![Act::Close(out_w)] }),
{
    if after_reads {
        vec![Act::Close(out_r)]
    } else {
        vec![Act::Close(out_w)]
    }
}

/// The `true` binary the exec tests run: `/bin/true` when it is there
/// (`bin`: its `access(F_OK)`), else `/usr/bin/true` (`usr_bin`), else
/// none, and the test passes without forking.
pub fn true_binary(bin: Sys, usr_bin: Sys) -> (p: Option<&'static str>)
    ensures
        p == (if bin is Ok { Some("/bin/true") } else if usr_bin is Ok { Some("/usr/bin/true") } else {
            None::<&'static str>
        }),
{
    if bin.is_ok() {
        Some("/bin/true")
    } else if usr_bin.is_ok() {
        Some("/usr/bin/true")
    } else {
        None
    }
}

/// A child reading a pipe whose writers all closed sees end of file (it
/// exits 0, see `eof_child_exit_code`; `code` is `wait_exit_status`).
pub fn pipe_eof_when_writer_closed(
    pipe: Sys,
    fork: Sys,
    code: Result<i32, AssertFail>,
) -> (r: TestResult)
    ensures
        r == guard(ok(pipe, "pipe"), guard(ok(fork, "fork"), guard(nested(code),
            guard(that(code->Ok_0 == 0, "expected EOF"), passed())))),
{
    check_ok(pipe, "pipe")?;
    check_ok(fork, "fork")?;
    let c = code?;
    check(c == 0, "expected EOF")?;
    Ok(())
}

/// A child polling an empty pipe whose writer the parent holds times out
/// (it exits 0, see `poll_timeout_child_exit_code`).
pub fn pipe_poll_timeout_writer_held(
    pipe: Sys,
    fork: Sys,
    code: Result<i32, AssertFail>,
) -> (r: TestResult)
    ensures
        r == guard(ok(pipe, "pipe"), guard(ok(fork, "fork"), guard(nested(code),
            guard(that(code->Ok_0 == 0, "poll timeout"), passed())))),
{
    check_ok(pipe, "pipe")?;
    check_ok(fork, "fork")?;
    let c = code?;
    check(c == 0, "poll timeout")?;
    Ok(())
}

/// A child that polls an inherited empty pipe and then execs `true` exits 0;
/// without a `true` binary (`have_true` false) the test passes.
pub fn pipe_poll_then_exec_writer_held(
    have_true: bool,
    pipe: Sys,
    fork: Sys,
    code: Result<i32, AssertFail>,
) -> (r: TestResult)
    ensures
        r == guard(only_if(have_true, ok(pipe, "pipe")),
            guard(only_if(have_true, ok(fork, "fork")), guard(only_if(have_true, nested(code)),
            guard(only_if(have_true, that(code->Ok_0 == 0, "exec after poll")), passed())))),
{
    if have_true {
        check_ok(pipe, "pipe")?;
        check_ok(fork, "fork")?;
        let c = code?;
        check(c == 0, "exec after poll")?;
    }
    Ok(())
}

/// A child that starts a session, polls an inherited empty pipe and execs
/// `true` exits 0; without a `true` binary the test passes.
pub fn pipe_setsid_poll_then_exec(
    have_true: bool,
    pipe: Sys,
    fork: Sys,
    code: Result<i32, AssertFail>,
) -> (r: TestResult)
    ensures
        r == guard(only_if(have_true, ok(pipe, "pipe")),
            guard(only_if(have_true, ok(fork, "fork")), guard(only_if(have_true, nested(code)),
            guard(only_if(have_true, that(code->Ok_0 == 0, "setsid exec")), passed())))),
{
    if have_true {
        check_ok(pipe, "pipe")?;
        check_ok(fork, "fork")?;
        let c = code?;
        check(c == 0, "setsid exec")?;
    }
    Ok(())
}

/// A child that execs `true` with an untouched inherited empty pipe exits 0;
/// without a `true` binary the test passes.
pub fn pipe_inherit_exec_without_touching(
    have_true: bool,
    pipe: Sys,
    fork: Sys,
    code: Result<i32, AssertFail>,
) -> (r: TestResult)
    ensures
        r == guard(only_if(have_true, ok(pipe, "pipe")),
            guard(only_if(have_true, ok(fork, "fork")), guard(only_if(have_true, nested(code)),
            guard(only_if(have_true, that(code->Ok_0 == 0, "exec with inherited pipe")), passed())))),
{
    if have_true {
        check_ok(pipe, "pipe")?;
        check_ok(fork, "fork")?;
        let c = code?;
        check(c == 0, "exec with inherited pipe")?;
    }
    Ok(())
}

/// `sh -c 'printf xy | cat'` exits 0 and its output (`out`, the bytes
/// collected, see `pipeline_read_step`) starts with "xy".
pub fn pipe_shell_pipeline_completes(
    access: Sys,
    pipe: Sys,
    fork: Sys,
    code: Result<i32, AssertFail>,
    out: &[u8],
) -> (r: TestResult)
    ensures
        r == guard(ok(access, "sh"), guard(ok(pipe, "out"), guard(ok(fork, "fork"),
            guard(nested(code), guard(that(code->Ok_0 == 0, "pipeline status"),
            guard(that(out@.len() >= 2 && out@[0] == 120 && out@[1] == 121, "pipeline out"), passed())))))),
{
    check_ok(access, "sh")?;
    check_ok(pipe, "out")?;
    check_ok(fork, "fork")?;
    let c = code?;
    check(c == 0, "pipeline status")?;
    check(out.len() >= 2 && out[0] == 120 && out[1] == 121, "pipeline out")?;
    Ok(())
}

/// How many read rounds the read loop of `pipe_shell_external_ls_completes`
/// makes at most.
pub const LS_ROUNDS: usize = 60;

/// The size of the buffer that loop reads the listing into.
pub const LS_BUF: usize = 512;

/// What the read loop of `pipe_shell_external_ls_completes` does after the
/// `wait4(WNOHANG)` of a round.
pub enum LsNext {
    /// Sleep 50 ms, then read again.
    SleepThenRead,
    /// The shell was reaped: read what is left into the buffer (see
    /// `ls_after_read`), then check its status and the listing.
    Reaped,
    /// The rounds are used up: leave the loop and wait for the shell with
    /// `wait_exit_status`.
    Leave,
}

/// After a read of that loop with `n` bytes of the buffer filled: the new
/// count after a read of some bytes; `None`, which ends the reading, at end
/// of file or on an error.
pub fn ls_after_read(n: usize, read: SysVal) -> (r: Option<usize>)
    requires
        n <= LS_BUF,
        read is Ok ==> 0 <= read->Ok_0 <= LS_BUF - n,
    ensures
        r == (match read {
            Ok(k) => if k == 0 { None } else { Some((n + k) as usize) },
            Err(_) => None,
        }),
{
    match read {
        Ok(k) => if k == 0 { None } else { Some(n + k as usize) },
        Err(_) => None,
    }
}

/// After the `wait4(pid, WNOHANG)` of the `i`th round of that loop, made
/// after a read of some bytes (see `LsNext`).
pub fn ls_after_wait(pid: i64, i: usize, wait: SysVal) -> (r: LsNext)
    requires
        i < LS_ROUNDS,
    ensures
        r == (if wait == Ok::<i64, Errno>(pid) { LsNext::Reaped } else if i + 1 >= LS_ROUNDS {
            LsNext::Leave
        } else {
            LsNext::SleepThenRead
        }),
{
    match wait {
        Ok(p) => if p == pid {
            return LsNext::Reaped;
        },
        Err(_) => {},
    }
    if i + 1 >= LS_ROUNDS {
        LsNext::Leave
    } else {
        LsNext::SleepThenRead
    }
}

/// `sh -c 'ls /'` run with the pipe as its output is reaped with status 0
/// and lists a usual root entry. When a poll during the read loop reaped
/// it (`ls_after_wait`), `reaped` holds that status; otherwise `code` is the
/// outcome of `wait_exit_status` after the loop. `listing` is all output
/// read, at most `LS_BUF` bytes (`ls_after_read`).
pub fn pipe_shell_external_ls_completes(
    access: Sys,
    pipe: Sys,
    fork: Sys,
    reaped: Option<i32>,
    code: Result<i32, AssertFail>,
    listing: &[u8],
) -> (r: TestResult)
    ensures
        r == guard(ok(access, "sh"), guard(ok(pipe, "out"), guard(ok(fork, "fork"),
            match reaped {
                Some(st) => guard(that(spec_term_sig(st) == 0, "exited"),
                    guard(that(spec_exit_code(st) == 0, "ls status"),
                    guard(that(spec_has_root_entry(listing@), "ls listing"), passed()))),
                None => guard(nested(code), guard(that(code->Ok_0 == 0, "ls status"),
                    guard(that(spec_has_root_entry(listing@), "ls listing"), passed()))),
            }))),
{
    check_ok(access, "sh")?;
    check_ok(pipe, "out")?;
    check_ok(fork, "fork")?;
    match reaped {
        Some(st) => {
            check(wifexited(st), "exited")?;
            check(wexitstatus(st) == 0, "ls status")?;
        },
        None => {
            let c = code?;
            check(c == 0, "ls status")?;
        },
    }
    check(contains_root_entry(listing), "ls listing")?;
    Ok(())
}

} // verus!
