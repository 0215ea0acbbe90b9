//! Third-depth edge cases: byte-range locks, descriptor duplication, status
//! flags, epoll and poll, eventfd, wait status, pending signals, madvise and
//! mprotect, memfd seals, hole punching, timerfd, inotify, pidfd, System V
//! shared memory, splice/tee/vmsplice and sockets.
//!
//! Functions named after a family of tests are the verdict every test of
//! that family shares, with the family's parameter as an argument.

use vstd::prelude::*;
use crate::plan::Act;
use vstd::string::StringSliceAdditionalSpecFns;
use crate::abi::{F_UNLCK, Timespec};
use crate::bytes::{bytes_eq, i32_from_ne_bytes, le_u32, le_u64, u64_from_ne_bytes};
use crate::errno::{
    Errno, EACCES, EAGAIN, EBADF, EBUSY, ECHILD, EINVAL, ENOMEM, ENOSPC, ENOSYS, ENOTSUP,
    EOPNOTSUPP, EPERM, EWOULDBLOCK,
};
use crate::harness::{
    AssertFail, Sys, SysVal, TestResult, check, check_err, check_ok, errs, fail, fails_with,
    failed_with, guard, nested, ok, only_if, passed, that,
};
use crate::sigset::{sigbit, spec_sigbit};
use crate::wait_status::{spec_exit_code, spec_term_sig, wexitstatus, wifexited, wifsignaled, wtermsig};

verus! {

/// Errors under which a probe counts as unsupported here rather than failed.
pub open spec fn is_soft(e: Errno) -> bool {
    e.0 == EINVAL || e.0 == ENOSYS || e.0 == EPERM || e.0 == EOPNOTSUPP || e.0 == ENOTSUP
        || e.0 == ENOMEM || e.0 == EBUSY || e.0 == EACCES || e.0 == ENOSPC
}

/// Whether `e` means the probed feature is unsupported rather than broken.
pub fn soft(e: Errno) -> (r: bool)
    ensures
        r == is_soft(e),
{
    e.0 == EINVAL || e.0 == ENOSYS || e.0 == EPERM || e.0 == EOPNOTSUPP || e.0 == ENOTSUP
        || e.0 == ENOMEM || e.0 == EBUSY || e.0 == EACCES || e.0 == ENOSPC
}

/// Exit code of the child of `d3_fcntl_getlk_contended_fork`: 2 when it
/// cannot open the file, 1 when `F_GETLK` answered `F_UNLCK` (the parent's
/// lock is invisible), 0 when the lock was seen.
pub fn getlk_probe_child_exit_code(open: Sys, probe_type: i64) -> (code: i32)
    ensures
        code == (if open is Err { 2i32 } else if probe_type == F_UNLCK { 1i32 } else { 0i32 }),
{
    if open.is_err() {
        2
    } else if probe_type == F_UNLCK {
        1
    } else {
        0
    }
}

/// Exit code of the child of `d3_fcntl_setlk_conflict_fork`: 0 when its
/// conflicting `F_SETLK` failed with `EAGAIN` or `EACCES`, 1 when it was
/// granted, 2 on any other outcome or when the file does not open.
pub fn setlk_conflict_child_exit_code(open: Sys, setlk: Sys) -> (code: i32)
    ensures
        code == (if open is Err { 2i32 } else {
            match setlk {
                Ok(_) => 1i32,
                Err(e) => if e.0 == EAGAIN || e.0 == EACCES { 0i32 } else { 2i32 },
            }
        }),
{
    if open.is_err() {
        return 2;
    }
    match setlk {
        Ok(_) => 1,
        Err(e) => if e.0 == EAGAIN || e.0 == EACCES { 0 } else { 2 },
    }
}

/// The checks of the reads of `efd_sem_drain`: each read succeeds and
/// decodes to 1.
pub open spec fn drain_reads(reads: Seq<(Sys, [u8; 8])>, rest: TestResult) -> TestResult
    decreases reads.len(),
{
    if reads.len() == 0 {
        rest
    } else {
        guard(ok(reads[0].0, "r"), guard(that(le_u64(reads[0].1@) == 1, "1"),
            drain_reads(reads.drop_first(), rest)))
    }
}

/// Verdict shared by the `d3_efd_*` tests: a semaphore eventfd created with
/// count `k` yields `k` reads of 1 (`reads` holds each read's outcome and
/// bytes); an unsupported eventfd passes.
pub fn efd_sem_drain(create: Sys, reads: &[(Sys, [u8; 8])], close: Sys) -> (r: TestResult)
    ensures
        r == guard(that(create is Ok || is_soft(create->Err_0), "efd"),
            guard(only_if(create is Ok, nested(drain_reads(reads@, guard(ok(close, "c"), passed())))),
            passed())),
{
    match create {
        Ok(_) => {},
        Err(e) => {
            if soft(e) {
                return Ok(());
            }
            return Err(fail("efd"));
        },
    }
    let ghost tail = guard(ok(close, "c"), passed());
    assert(reads@.skip(0) =~= reads@);
    let mut i: usize = 0;
    while i < reads.len()
        invariant
            i <= reads.len(),
            create is Ok,
            tail == guard(ok(close, "c"), passed()),
            drain_reads(reads@, tail) == drain_reads(reads@.skip(i as int), tail),
        decreases reads.len() - i,
    {
        let (read, bytes) = reads[i];
        assert(reads@.skip(i as int).drop_first() =~= reads@.skip(i + 1));
        assert(reads@.skip(i as int)[0] == reads@[i as int]);
        check_ok(read, "r")?;
        check(u64_from_ne_bytes(bytes) == 1, "1")?;
        i = i + 1;
    }
    assert(reads@.skip(i as int) =~= Seq::<(Sys, [u8; 8])>::empty());
    check_ok(close, "c")?;
    Ok(())
}

/// A time whose nanosecond field is brought into `0..1_000_000_000` by
/// carrying whole seconds, as `tfd_abs_ms` does before arming.
pub fn normalize_timespec(t: Timespec) -> (n: Timespec)
    requires
        t.tv_nsec >= 0,
        t.tv_sec + t.tv_nsec / 1_000_000_000 <= i64::MAX,
    ensures
        n.tv_sec * 1_000_000_000 + n.tv_nsec == t.tv_sec * 1_000_000_000 + t.tv_nsec,
        0 <= n.tv_nsec < 1_000_000_000,
{
    let mut sec = t.tv_sec;
    let mut nsec = t.tv_nsec;
    while nsec >= 1_000_000_000
        invariant
            nsec >= 0,
            sec * 1_000_000_000 + nsec == t.tv_sec * 1_000_000_000 + t.tv_nsec,
            sec + nsec / 1_000_000_000 <= i64::MAX,
        decreases nsec,
    {
        sec = sec + 1;
        nsec = nsec - 1_000_000_000;
    }
    Timespec { tv_sec: sec, tv_nsec: nsec }
}

/// How the receive loop of `tcp_send_sz` ends, from `got` bytes received so
/// far towards `want`: with the total once it reaches `want`, at end of
/// stream, or when the transcript of `recv` results runs out; with the
/// failure of the first `recv` that fails.
pub open spec fn recv_total(recvs: Seq<Result<usize, Errno>>, got: int, want: int) -> Result<int, AssertFail>
    decreases recvs.len(),
{
    if got >= want || recvs.len() == 0 {
        Ok(got)
    } else {
        match recvs[0] {
            Err(e) => Err(AssertFail { msg: "recv", errno: Some(e) }),
            Ok(k) => if k == 0 { Ok(got) } else { recv_total(recvs.drop_first(), got + k, want) },
        }
    }
}

/// The bytes counted by a run of `recv` results: the sum of the counts of
/// the successful ones.
pub open spec fn recv_counts(recvs: Seq<Result<usize, Errno>>) -> int
    decreases recvs.len(),
{
    if recvs.len() == 0 {
        0
    } else {
        (match recvs[0] {
            Ok(k) => k as int,
            Err(_) => 0,
        }) + recv_counts(recvs.drop_first())
    }
}

/// The receive total of `tcp_send_sz` is what the `recv`s delivered: `got`
/// plus the counts of some first run of the `recv` results, never more; and
/// an end of stream before `want` bytes arrived stops the count where it is.
pub proof fn lemma_recv_total_counts(recvs: Seq<Result<usize, Errno>>, got: int, want: int)
    ensures
        recv_total(recvs, got, want) is Ok ==> exists|j: int| 0 <= j <= recvs.len()
            && recv_total(recvs, got, want)->Ok_0 == got + #[trigger] recv_counts(recvs.take(j)),
        got < want && recvs.len() > 0 && recvs[0] == Ok::<usize, Errno>(0) ==> recv_total(recvs, got, want)
            == Ok::<int, AssertFail>(got),
        got < want && recvs.len() > 0 && recvs[0] is Err ==> recv_total(recvs, got, want) == Err::<int, AssertFail>(
            AssertFail { msg: "recv", errno: Some(recvs[0]->Err_0) },
        ),
        got >= want ==> recv_total(recvs, got, want) == Ok::<int, AssertFail>(got),
    decreases recvs.len(),
{
    if got >= want || recvs.len() == 0 {
        assert(recvs.take(0) =~= Seq::<Result<usize, Errno>>::empty());
        assert(recv_counts(recvs.take(0)) == 0);
    } else {
        match recvs[0] {
            Err(_) => {},
            Ok(k) => {
                if k == 0 {
                    assert(recvs.take(0) =~= Seq::<Result<usize, Errno>>::empty());
                    assert(recv_counts(recvs.take(0)) == 0);
                } else {
                    let t = recvs.drop_first();
                    lemma_recv_total_counts(t, got + k, want);
                    if recv_total(recvs, got, want) is Ok {
                        let j = choose|j: int| 0 <= j <= t.len()
                            && recv_total(t, got + k, want)->Ok_0 == got + k + #[trigger] recv_counts(t.take(j));
                        assert(recvs.take(j + 1).drop_first() =~= t.take(j));
                        assert(recvs.take(j + 1)[0] == recvs[0]);
                        assert(recv_counts(recvs.take(j + 1)) == k + recv_counts(t.take(j)));
                    }
                }
            },
        }
    }
}

/// Verdict shared by the `d3_tcp_*` size tests: `want` bytes sent on a TCP
/// pair are all sent, and are all received by reading until `want` bytes
/// have arrived or the stream ends (`recvs` are the `recv` results in
/// order).
pub fn tcp_send_sz(
    want: usize,
    pair: TestResult,
    send: SysVal,
    recvs: &[Result<usize, Errno>],
    close_acc: Sys,
    close_cli: Sys,
    close_srv: Sys,
) -> (r: TestResult)
    ensures
        r == guard(nested(pair), guard(ok(send, "send"), guard(that(send->Ok_0 == want as i64, "n"),
            match recv_total(recvs@, 0, want as int) {
                Err(f) => Err(f),
                Ok(got) => guard(that(got == want, "got"), guard(ok(close_acc, "a"),
                    guard(ok(close_cli, "c"), guard(ok(close_srv, "s"), passed())))),
            }))),
{
    pair?;
    let sent = check_ok(send, "send")?;
    check(sent == want as i64, "n")?;
    let mut got: usize = 0;
    let mut i: usize = 0;
    let mut ended = false;
    assert(recvs@.skip(0) =~= recvs@);
    while !ended && got < want && i < recvs.len()
        invariant
            i <= recvs.len(),
            got <= want,
            pair is Ok,
            send is Ok,
            send->Ok_0 == want as i64,
            recv_total(recvs@, 0, want as int) == recv_total(recvs@.skip(i as int), got as int, want as int),
            ended ==> recv_total(recvs@.skip(i as int), got as int, want as int) == Ok::<int, AssertFail>(got as int),
        decreases recvs.len() - i, if ended { 0int } else { 1int },
    {
        assert(recvs@.skip(i as int)[0] == recvs@[i as int]);
        assert(recvs@.skip(i as int).drop_first() =~= recvs@.skip(i + 1));
        let k = check_ok(recvs[i], "recv")?;
        if k == 0 {
            ended = true;
        } else {
            if k > want - got {
                assert(recv_total(recvs@.skip(i + 1), got + k, want as int) == Ok::<int, AssertFail>(got + k));
                return Err(fail("got"));
            }
            got = got + k;
            i = i + 1;
        }
    }
    if i == recvs.len() {
        assert(recvs@.skip(i as int) =~= Seq::<Result<usize, Errno>>::empty());
    }
    check(got == want, "got")?;
    check_ok(close_acc, "a")?;
    check_ok(close_cli, "c")?;
    check_ok(close_srv, "s")?;
    Ok(())
}

/// Verdict shared by the `d3_lk_*` tests: a read or write lock over some
/// byte range of a twenty-byte file is taken and released.
pub fn flock_byte(
    tmp: Sys,
    create: Sys,
    write: Sys,
    lock: Sys,
    unlock: Sys,
    close: Sys,
) -> (r: TestResult)
    ensures
        r == guard(ok(tmp, "t"), guard(ok(create, "c"), guard(ok(write, "w"), guard(ok(lock, "lk"),
            guard(ok(unlock, "un"), guard(ok(close, "c"), passed())))))),
{
    check_ok(tmp, "t")?;
    check_ok(create, "c")?;
    check_ok(write, "w")?;
    check_ok(lock, "lk")?;
    check_ok(unlock, "un")?;
    check_ok(close, "c")?;
    Ok(())
}

/// While the parent holds a write lock on byte 0, a child's `F_GETLK` sees
/// it contended (the child exits 0, see `getlk_probe_child_exit_code`).
pub fn d3_fcntl_getlk_contended_fork(
    tmp: Sys,
    setup: TestResult,
    write: TestResult,
    open: Sys,
    lock: Sys,
    fork: Sys,
    wait: Sys,
    status: i32,
    unlock: Sys,
    close: Sys,
) -> (r: TestResult)
    ensures
        r == guard(ok(tmp, "t"), guard(nested(setup), guard(nested(write), guard(ok(open, "o"),
            guard(ok(lock, "set"), guard(ok(fork, "fork"), guard(ok(wait, "wait"),
            guard(that(spec_term_sig(status) == 0, "ex"),
            guard(that(spec_exit_code(status) == 0, "contended"), guard(ok(unlock, "un"),
            guard(ok(close, "c"), passed()))))))))))),
{
    check_ok(tmp, "t")?;
    setup?;
    write?;
    check_ok(open, "o")?;
    check_ok(lock, "set")?;
    check_ok(fork, "fork")?;
    check_ok(wait, "wait")?;
    check(wifexited(status), "ex")?;
    check(wexitstatus(status) == 0, "contended")?;
    check_ok(unlock, "un")?;
    check_ok(close, "c")?;
    Ok(())
}

/// While the parent holds a whole-file write lock, a child's `F_SETLK` is
/// refused (the child exits 0, see `setlk_conflict_child_exit_code`).
pub fn d3_fcntl_setlk_conflict_fork(
    tmp: Sys,
    setup: TestResult,
    write: TestResult,
    open: Sys,
    lock: Sys,
    fork: Sys,
    wait: Sys,
    status: i32,
    unlock: Sys,
    close: Sys,
) -> (r: TestResult)
    ensures
        r == guard(ok(tmp, "t"), guard(nested(setup), guard(nested(write), guard(ok(open, "o"),
            guard(ok(lock, "set"), guard(ok(fork, "fork"), guard(ok(wait, "wait"),
            guard(that(spec_exit_code(status) == 0, "eagain"), guard(ok(unlock, "un"),
            guard(ok(close, "c"), passed())))))))))),
{
    check_ok(tmp, "t")?;
    setup?;
    write?;
    check_ok(open, "o")?;
    check_ok(lock, "set")?;
    check_ok(fork, "fork")?;
    check_ok(wait, "wait")?;
    check(wexitstatus(status) == 0, "eagain")?;
    check_ok(unlock, "un")?;
    check_ok(close, "c")?;
    Ok(())
}

/// Verdict shared by the `d3_dupfd_*` tests: `F_DUPFD` with a minimum gives
/// a descriptor at or above it.
pub fn dupfd_min(
    min: i64,
    tmp: Sys,
    create: Sys,
    dup: SysVal,
    close_dup: Sys,
    close_fd: Sys,
) -> (r: TestResult)
    ensures
        r == guard(ok(tmp, "t"), guard(ok(create, "c"), guard(ok(dup, "dup"),
            guard(that((dup->Ok_0) >= min, "min"), guard(ok(close_dup, "cn"),
            guard(ok(close_fd, "cf"), passed())))))),
{
    check_ok(tmp, "t")?;
    check_ok(create, "c")?;
    let n = check_ok(dup, "dup")?;
    check(n >= min, "min")?;
    check_ok(close_dup, "cn")?;
    check_ok(close_fd, "cf")?;
    Ok(())
}

/// Verdict shared by the `d3_setfl_*` tests: status flags added with
/// `F_SETFL` show in `F_GETFL`, then the old flags are restored.
pub fn setfl_flag(
    flag: i64,
    tmp: Sys,
    create: Sys,
    get: Sys,
    set: Sys,
    get2: SysVal,
    restore: Sys,
    close: Sys,
) -> (r: TestResult)
    ensures
        r == guard(ok(tmp, "t"), guard(ok(create, "c"), guard(ok(get, "get"), guard(ok(set, "set"),
            guard(ok(get2, "get2"), guard(that((get2->Ok_0) & flag != 0, "flag"),
            guard(ok(restore, "restore"), guard(ok(close, "c"), passed())))))))),
{
    check_ok(tmp, "t")?;
    check_ok(create, "c")?;
    check_ok(get, "get")?;
    check_ok(set, "set")?;
    let now = check_ok(get2, "get2")?;
    check(now & flag != 0, "flag")?;
    check_ok(restore, "restore")?;
    check_ok(close, "c")?;
    Ok(())
}

/// `F_DUPFD_CLOEXEC` with minimum 20 gives a descriptor at or above 20.
pub fn d3_dupfd_cloexec(
    tmp: Sys,
    create: Sys,
    dup: SysVal,
    close_dup: Sys,
    close_fd: Sys,
) -> (r: TestResult)
    ensures
        r == guard(ok(tmp, "t"), guard(ok(create, "c"), guard(ok(dup, "dup"),
            guard(that((dup->Ok_0) >= 20, "min"), guard(ok(close_dup, "cn"),
            guard(ok(close_fd, "cf"), passed())))))),
{
    check_ok(tmp, "t")?;
    check_ok(create, "c")?;
    let n = check_ok(dup, "dup")?;
    check(n >= 20, "min")?;
    check_ok(close_dup, "cn")?;
    check_ok(close_fd, "cf")?;
    Ok(())
}

/// Verdict shared by the `d3_ep_*` tests: a pipe read end registered with
/// some `EPOLLIN` variant is reported ready after a write.
pub fn epoll_pipe(
    pipe: Sys,
    create: Sys,
    add: Sys,
    write: Sys,
    wait: SysVal,
    close_ep: Sys,
    close_r: Sys,
    close_w: Sys,
) -> (r: TestResult)
    ensures
        r == guard(ok(pipe, "pipe"), guard(ok(create, "ep"), guard(ok(add, "add"),
            guard(ok(write, "w"), guard(ok(wait, "wait"), guard(that((wait->Ok_0) >= 1, "rdy"),
            guard(ok(close_ep, "cep"), guard(ok(close_r, "cr"),
            guard(ok(close_w, "cw"), passed()))))))))),
{
    check_ok(pipe, "pipe")?;
    check_ok(create, "ep")?;
    check_ok(add, "add")?;
    check_ok(write, "w")?;
    let n = check_ok(wait, "wait")?;
    check(n >= 1, "rdy")?;
    check_ok(close_ep, "cep")?;
    check_ok(close_r, "cr")?;
    check_ok(close_w, "cw")?;
    Ok(())
}

/// An `EPOLLONESHOT` registration reports once, stays silent after new data
/// until re-armed with `EPOLL_CTL_MOD`, then reports again.
pub fn d3_epoll_oneshot_needs_mod(
    pipe: Sys,
    create: Sys,
    add: Sys,
    write1: Sys,
    wait1: SysVal,
    drain: Sys,
    write2: Sys,
    wait2: SysVal,
    modify: Sys,
    wait3: SysVal,
    del: Sys,
    close_ep: Sys,
    close_r: Sys,
    close_w: Sys,
) -> (r: TestResult)
    ensures
        r == guard(ok(pipe, "pipe"), guard(ok(create, "ep"), guard(ok(add, "add"),
            guard(ok(write1, "w1"), guard(ok(wait1, "w1"), guard(that((wait1->Ok_0) >= 1, "e1"),
            guard(ok(drain, "drain"), guard(ok(write2, "w2"), guard(ok(wait2, "w2"),
            guard(that((wait2->Ok_0) == 0, "armed off"), guard(ok(modify, "mod"),
            guard(ok(wait3, "w3"), guard(that((wait3->Ok_0) >= 1, "e2"), guard(ok(del, "del"),
            guard(ok(close_ep, "cep"), guard(ok(close_r, "cr"),
            guard(ok(close_w, "cw"), passed()))))))))))))))))),
{
    check_ok(pipe, "pipe")?;
    check_ok(create, "ep")?;
    check_ok(add, "add")?;
    check_ok(write1, "w1")?;
    let n1 = check_ok(wait1, "w1")?;
    check(n1 >= 1, "e1")?;
    check_ok(drain, "drain")?;
    check_ok(write2, "w2")?;
    let n2 = check_ok(wait2, "w2")?;
    check(n2 == 0, "armed off")?;
    check_ok(modify, "mod")?;
    let n3 = check_ok(wait3, "w3")?;
    check(n3 >= 1, "e2")?;
    check_ok(del, "del")?;
    check_ok(close_ep, "cep")?;
    check_ok(close_r, "cr")?;
    check_ok(close_w, "cw")?;
    Ok(())
}

/// `poll` with timeout 0 on an empty pipe reports nothing ready.
pub fn d3_poll_timeout_zero_empty(
    pipe: Sys,
    poll: SysVal,
    close_r: Sys,
    close_w: Sys,
) -> (r: TestResult)
    ensures
        r == guard(ok(pipe, "pipe"), guard(ok(poll, "p"), guard(that((poll->Ok_0) == 0, "none"),
            guard(ok(close_r, "cr"), guard(ok(close_w, "cw"), passed()))))),
{
    check_ok(pipe, "pipe")?;
    let n = check_ok(poll, "p")?;
    check(n == 0, "none")?;
    check_ok(close_r, "cr")?;
    check_ok(close_w, "cw")?;
    Ok(())
}

/// `poll` with timeout 0 on a pipe holding a byte reports it ready.
pub fn d3_poll_timeout_zero_ready(
    pipe: Sys,
    write: Sys,
    poll: SysVal,
    close_r: Sys,
    close_w: Sys,
) -> (r: TestResult)
    ensures
        r == guard(ok(pipe, "pipe"), guard(ok(write, "w"), guard(ok(poll, "p"),
            guard(that((poll->Ok_0) >= 1, "rdy"), guard(ok(close_r, "cr"),
            guard(ok(close_w, "cw"), passed())))))),
{
    check_ok(pipe, "pipe")?;
    check_ok(write, "w")?;
    let n = check_ok(poll, "p")?;
    check(n >= 1, "rdy")?;
    check_ok(close_r, "cr")?;
    check_ok(close_w, "cw")?;
    Ok(())
}

/// `ppoll` with a zero timeout on an empty pipe reports nothing ready, or is
/// unsupported.
pub fn d3_ppoll_timeout_zero(
    pipe: Sys,
    ppoll: SysVal,
    close_r: Sys,
    close_w: Sys,
) -> (r: TestResult)
    ensures
        r == guard(ok(pipe, "pipe"), guard(that(ppoll is Ok || is_soft(ppoll->Err_0), "ppoll"),
            guard(only_if(ppoll is Ok, that((ppoll->Ok_0) == 0, "none")), guard(ok(close_r, "cr"),
            guard(ok(close_w, "cw"), passed()))))),
{
    check_ok(pipe, "pipe")?;
    check(match ppoll { Ok(_) => true, Err(e) => soft(e) }, "ppoll")?;
    if let Ok(n) = ppoll {
        check(n == 0, "none")?;
    }
    check_ok(close_r, "cr")?;
    check_ok(close_w, "cw")?;
    Ok(())
}

/// `ppoll` with a zero timeout on a pipe holding a byte reports it ready, or
/// is unsupported.
pub fn d3_ppoll_ready_zero_timeout(
    pipe: Sys,
    write: Sys,
    ppoll: SysVal,
    close_r: Sys,
    close_w: Sys,
) -> (r: TestResult)
    ensures
        r == guard(ok(pipe, "pipe"), guard(ok(write, "w"),
            guard(that(ppoll is Ok || is_soft(ppoll->Err_0), "ppoll"),
            guard(only_if(ppoll is Ok, that((ppoll->Ok_0) >= 1, "rdy")), guard(ok(close_r, "cr"),
            guard(ok(close_w, "cw"), passed())))))),
{
    check_ok(pipe, "pipe")?;
    check_ok(write, "w")?;
    check(match ppoll { Ok(_) => true, Err(e) => soft(e) }, "ppoll")?;
    if let Ok(n) = ppoll {
        check(n >= 1, "rdy")?;
    }
    check_ok(close_r, "cr")?;
    check_ok(close_w, "cw")?;
    Ok(())
}

/// The calls `d3_ppoll_timeout_zero` and `d3_ppoll_ready_zero_timeout`
/// make besides their checks: when `ppoll` fails other than softly, they
/// close both pipe ends (`r`, `w`) before the test fails.
pub fn ppoll_cleanup(r: i64, w: i64, ppoll: SysVal) -> (acts: Vec<Act>)
    ensures
        acts@ == (if ppoll is Err && !is_soft(ppoll->Err_0) { seq![Act::Close(r), Act::Close(w)] } else { Seq::<Act>::empty() }),
{
    if match ppoll { Err(e) => !soft(e), Ok(_) => false } {
        vec![Act::Close(r), Act::Close(w)]
    } else {
        vec![]
    }
}

/// Reading a zero nonblocking eventfd fails with `EAGAIN`; an unsupported
/// eventfd passes.
pub fn d3_efd_nonblock_eagain(create: Sys, read: SysVal, close: Sys) -> (r: TestResult)
    ensures
        r == guard(that(create is Ok || is_soft(create->Err_0), "efd"),
            guard(only_if(create is Ok, that(read is Err, "expected eagain")),
            guard(only_if(create is Ok, that(read is Ok || fails_with(read, seq![EAGAIN, EWOULDBLOCK]), "read")),
            guard(only_if(create is Ok, ok(close, "c")), passed())))),
{
    check(match create { Ok(_) => true, Err(e) => soft(e) }, "efd")?;
    if create.is_ok() {
        check(read.is_err(), "expected eagain")?;
        check(read.is_ok() || failed_with(&read, &[EAGAIN, EWOULDBLOCK]), "read")?;
        check_ok(close, "c")?;
    }
    Ok(())
}

/// Verdict shared by the `d3_ex_*` tests: a child exiting with `code` is
/// reaped as exited with that code.
pub fn wait_exit(code: i32, fork: Sys, wait: Sys, status: i32) -> (r: TestResult)
    ensures
        r == guard(ok(fork, "f"), guard(ok(wait, "w"),
            guard(that(spec_term_sig(status) == 0, "ex"),
            guard(that(spec_exit_code(status) == code, "c"), passed())))),
{
    check_ok(fork, "f")?;
    check_ok(wait, "w")?;
    check(wifexited(status), "ex")?;
    check(wexitstatus(status) == code, "c")?;
    Ok(())
}

/// Verdict shared by the `d3_term_*` tests: a sleeping child sent `sig` is
/// reaped as killed by `sig`.
pub fn wait_termsig(sig: i32, fork: Sys, kill: Sys, wait: Sys, status: i32) -> (r: TestResult)
    ensures
        r == guard(ok(fork, "f"), guard(ok(kill, "kill"), guard(ok(wait, "w"),
            guard(that(spec_term_sig(status) != 0 && spec_term_sig(status) != 0x7f, "sig"),
            guard(that(spec_term_sig(status) == sig, "termsig"), passed()))))),
{
    check_ok(fork, "f")?;
    check_ok(kill, "kill")?;
    check_ok(wait, "w")?;
    check(wifsignaled(status), "sig")?;
    check(wtermsig(status) == sig, "termsig")?;
    Ok(())
}

/// `waitid(WEXITED)` reaps a child that exited.
pub fn d3_waitid_exited(fork: Sys, waitid: Sys) -> (r: TestResult)
    ensures
        r == guard(ok(fork, "f"), guard(ok(waitid, "waitid"), passed())),
{
    check_ok(fork, "f")?;
    check_ok(waitid, "waitid")?;
    Ok(())
}

/// `waitid(WEXITED)` reaps a child killed with `SIGKILL`.
pub fn d3_waitid_killed(fork: Sys, kill: Sys, waitid: Sys) -> (r: TestResult)
    ensures
        r == guard(ok(fork, "f"), guard(ok(kill, "kill"), guard(ok(waitid, "waitid"), passed()))),
{
    check_ok(fork, "f")?;
    check_ok(kill, "kill")?;
    check_ok(waitid, "waitid")?;
    Ok(())
}

/// `wait4(-1, WNOHANG)` with no children fails with `ECHILD` or returns 0.
pub fn d3_wait4_nohang_none(wait: SysVal) -> (r: TestResult)
    ensures
        r == guard(that(wait is Err || wait->Ok_0 == 0, "unexpected child"),
            guard(that(wait is Ok || wait->Err_0.0 == ECHILD, "wait4"), passed())),
{
    check(match wait { Ok(p) => p == 0, Err(_) => true }, "unexpected child")?;
    check(match wait { Ok(_) => true, Err(e) => e.0 == ECHILD }, "wait4")?;
    Ok(())
}

/// Signal 0 to the own process group succeeds.
pub fn d3_kill_zero_self(kill: Sys) -> (r: TestResult)
    ensures
        r == guard(ok(kill, "kill0"), passed()),
{
    check_ok(kill, "kill0")?;
    Ok(())
}

/// Signal 0 to the own process succeeds.
pub fn d3_kill_self_zero(kill: Sys) -> (r: TestResult)
    ensures
        r == guard(ok(kill, "exist"), passed()),
{
    check_ok(kill, "exist")?;
    Ok(())
}

/// Verdict shared by the `d3_pend_*` tests: an ignored but blocked signal
/// sent to self shows in the pending set (see `sigbit`).
pub fn sigpending_grid(
    sig: i32,
    ignore: Sys,
    block: Sys,
    kill: Sys,
    pending: Sys,
    pend: u64,
    unblock: Sys,
    restore: Sys,
) -> (r: TestResult)
    requires
        1 <= sig <= 64,
    ensures
        r == guard(ok(ignore, "ign"), guard(ok(block, "block"), guard(ok(kill, "kill"),
            guard(ok(pending, "pend"), guard(that(pend & spec_sigbit(sig) != 0, "bit"),
            guard(ok(unblock, "un"), guard(ok(restore, "dfl"), passed()))))))),
{
    check_ok(ignore, "ign")?;
    check_ok(block, "block")?;
    check_ok(kill, "kill")?;
    check_ok(pending, "pend")?;
    check(pend & sigbit(sig) != 0, "bit")?;
    check_ok(unblock, "un")?;
    check_ok(restore, "dfl")?;
    Ok(())
}

/// Verdict shared by the `d3_madv_*` tests: some `madvise` advice on an
/// anonymous page is accepted, or is unsupported.
pub fn madvise_advice(mmap: Sys, advise: Sys, munmap: Sys) -> (r: TestResult)
    ensures
        r == guard(ok(mmap, "mmap"), guard(that(advise is Ok || is_soft(advise->Err_0), "madvise"),
            guard(ok(munmap, "un"), passed()))),
{
    check_ok(mmap, "mmap")?;
    check(match advise { Ok(_) => true, Err(e) => soft(e) }, "madvise")?;
    check_ok(munmap, "un")?;
    Ok(())
}

/// Verdict shared by the `d3_mprot_*` tests: some protection combination on
/// an anonymous page is accepted, or is unsupported.
pub fn mprotect_combo(mmap: Sys, protect: Sys, munmap: Sys) -> (r: TestResult)
    ensures
        r == guard(ok(mmap, "mmap"),
            guard(that(protect is Ok || is_soft(protect->Err_0), "mprotect"),
            guard(ok(munmap, "un"), passed()))),
{
    check_ok(mmap, "mmap")?;
    check(match protect { Ok(_) => true, Err(e) => soft(e) }, "mprotect")?;
    check_ok(munmap, "un")?;
    Ok(())
}

/// Verdict shared by the `d3_seal_*` tests: a seal added to a sealable memfd
/// shows in `F_GET_SEALS`; an unsupported memfd or seal passes.
pub fn memfd_seal(seal: i64, create: Sys, add: Sys, get: SysVal, close: Sys) -> (r: TestResult)
    ensures
        r == guard(that(create is Ok || is_soft(create->Err_0), "memfd"),
            guard(only_if(create is Ok, that(add is Ok || is_soft(add->Err_0), "seal")),
            guard(only_if(create is Ok, only_if(add is Ok, ok(get, "get"))),
            guard(only_if(create is Ok, only_if(add is Ok, that((get->Ok_0) & seal != 0, "sealed"))),
            guard(only_if(create is Ok, ok(close, "c")), passed()))))),
{
    check(match create { Ok(_) => true, Err(e) => soft(e) }, "memfd")?;
    if create.is_ok() {
        check(match add { Ok(_) => true, Err(e) => soft(e) }, "seal")?;
        if add.is_ok() {
            let s = check_ok(get, "get")?;
            check(s & seal != 0, "sealed")?;
        }
        check_ok(close, "c")?;
    }
    Ok(())
}

/// Verdict shared by the `d3_punch_*` tests: punching a hole into an 8 KiB
/// file is accepted, or is unsupported.
pub fn falloc_punch(tmp: Sys, create: Sys, truncate: Sys, punch: Sys, close: Sys) -> (r: TestResult)
    ensures
        r == guard(ok(tmp, "t"), guard(ok(create, "c"), guard(ok(truncate, "tr"),
            guard(that(punch is Ok || is_soft(punch->Err_0), "punch"),
            guard(ok(close, "c"), passed()))))),
{
    check_ok(tmp, "t")?;
    check_ok(create, "c")?;
    check_ok(truncate, "tr")?;
    check(match punch { Ok(_) => true, Err(e) => soft(e) }, "punch")?;
    check_ok(close, "c")?;
    Ok(())
}

/// Verdict shared by the `d3_tfd_*` tests: a timerfd armed some
/// milliseconds ahead.
pub fn tfd_rel_ms(create: Sys, set: Sys, close: Sys) -> (r: TestResult)
    ensures
        r == guard(ok(create, "t"), guard(ok(set, "set"), guard(ok(close, "c"), passed()))),
{
    check_ok(create, "t")?;
    check_ok(set, "set")?;
    check_ok(close, "c")?;
    Ok(())
}

/// Verdict shared by the `d3_tfd_abs_*` tests: a timerfd armed at an
/// absolute deadline (see `normalize_timespec`).
pub fn tfd_abs_ms(create: Sys, now: Sys, set: Sys, close: Sys) -> (r: TestResult)
    ensures
        r == guard(ok(create, "t"), guard(ok(now, "n"), guard(ok(set, "s"),
            guard(ok(close, "c"), passed())))),
{
    check_ok(create, "t")?;
    check_ok(now, "n")?;
    check_ok(set, "s")?;
    check_ok(close, "c")?;
    Ok(())
}

/// Verdict shared by the `d3_in_*` tests: a directory watch with some event
/// mask is added and removed.
pub fn in_mask(tmp: Sys, init: Sys, add: Sys, rm: Sys, close: Sys) -> (r: TestResult)
    ensures
        r == guard(ok(tmp, "t"), guard(ok(init, "i"), guard(ok(add, "a"), guard(ok(rm, "r"),
            guard(ok(close, "c"), passed()))))),
{
    check_ok(tmp, "t")?;
    check_ok(init, "i")?;
    check_ok(add, "a")?;
    check_ok(rm, "r")?;
    check_ok(close, "c")?;
    Ok(())
}

/// `SIGTERM` through a child's pidfd kills it; an unsupported `pidfd_open`
/// passes.
pub fn d3_pidfd_send_term(
    fork: Sys,
    open: Sys,
    signal: Sys,
    wait: Sys,
    status: i32,
    close: Sys,
) -> (r: TestResult)
    ensures
        r == guard(ok(fork, "f"), guard(that(open is Ok || is_soft(open->Err_0), "pidfd"),
            guard(only_if(open is Ok, ok(signal, "sig")), guard(only_if(open is Ok, ok(wait, "w")),
            guard(only_if(open is Ok, that(spec_term_sig(status) != 0 && spec_term_sig(status) != 0x7f, "sig")),
            guard(only_if(open is Ok, ok(close, "c")), passed())))))),
{
    check_ok(fork, "f")?;
    check(match open { Ok(_) => true, Err(e) => soft(e) }, "pidfd")?;
    if open.is_ok() {
        check_ok(signal, "sig")?;
        check_ok(wait, "w")?;
        check(wifsignaled(status), "sig")?;
        check_ok(close, "c")?;
    }
    Ok(())
}

/// `SIGUSR1` and then `SIGKILL` through a child's pidfd are delivered; an
/// unsupported `pidfd_open` passes.
pub fn d3_pidfd_send_usr1(
    fork: Sys,
    open: Sys,
    usr1: Sys,
    kill: Sys,
    wait: Sys,
    close: Sys,
) -> (r: TestResult)
    ensures
        r == guard(ok(fork, "f"), guard(that(open is Ok || is_soft(open->Err_0), "pidfd"),
            guard(only_if(open is Ok, ok(usr1, "sig")),
            guard(only_if(open is Ok, ok(kill, "kill")), guard(only_if(open is Ok, ok(wait, "w")),
            guard(only_if(open is Ok, ok(close, "c")), passed())))))),
{
    check_ok(fork, "f")?;
    check(match open { Ok(_) => true, Err(e) => soft(e) }, "pidfd")?;
    if open.is_ok() {
        check_ok(usr1, "sig")?;
        check_ok(kill, "kill")?;
        check_ok(wait, "w")?;
        check_ok(close, "c")?;
    }
    Ok(())
}

/// The calls `d3_pidfd_send_term` and `d3_pidfd_send_usr1` make besides
/// their checks: when `pidfd_open` of the sleeping child `pid` is
/// unsupported, the child is killed and reaped before the test passes.
pub fn pidfd_open_cleanup(pid: i64, open: Sys) -> (acts: Vec<Act>)
    ensures
        acts@ == (if open is Err && is_soft(open->Err_0) { seq![Act::KillReap(pid)] } else {
            Seq::<Act>::empty()
        }),
{
    match open {
        Err(e) => if soft(e) { vec![Act::KillReap(pid)] } else { vec![] },
        Ok(_) => vec![],
    }
}

/// Verdict shared by the `d3_shm_*` tests: a private System V segment is
/// created, attached, written, detached and removed; refusals that mean
/// "unsupported" pass.
pub fn shm_size(get: Sys, attach: Sys, detach: Sys, remove: Sys) -> (r: TestResult)
    ensures
        r == guard(that(get is Ok || is_soft(get->Err_0), "shmget"),
            guard(only_if(get is Ok, that(attach is Ok || is_soft(attach->Err_0), "shmat")),
            guard(only_if(get is Ok, only_if(attach is Ok, ok(detach, "dt"))),
            guard(only_if(get is Ok, only_if(attach is Ok, ok(remove, "rm"))), passed())))),
{
    check(match get { Ok(_) => true, Err(e) => soft(e) }, "shmget")?;
    if get.is_ok() {
        check(match attach { Ok(_) => true, Err(e) => soft(e) }, "shmat")?;
        if attach.is_ok() {
            check_ok(detach, "dt")?;
            check_ok(remove, "rm")?;
        }
    }
    Ok(())
}

/// Verdict shared by the `d3_sp_*` tests: splicing `n` buffered bytes moves
/// all `n`, or is unsupported.
pub fn splice_n(n: usize, pipe1: Sys, pipe2: Sys, write: Sys, splice: SysVal) -> (r: TestResult)
    ensures
        r == guard(ok(pipe1, "p1"), guard(ok(pipe2, "p2"), guard(ok(write, "w"),
            guard(that(splice is Ok || is_soft(splice->Err_0), "splice"),
            guard(only_if(splice is Ok, that((splice->Ok_0) == n as i64, "n")), passed()))))),
{
    check_ok(pipe1, "p1")?;
    check_ok(pipe2, "p2")?;
    check_ok(write, "w")?;
    check(match splice { Ok(_) => true, Err(e) => soft(e) }, "splice")?;
    if let Ok(v) = splice {
        check(v == n as i64, "n")?;
    }
    Ok(())
}

/// Verdict shared by the `d3_tee_*` tests: `tee` of `n` buffered bytes
/// duplicates all `n`, or is unsupported.
pub fn tee_n(n: usize, pipe1: Sys, pipe2: Sys, write: Sys, tee: SysVal) -> (r: TestResult)
    ensures
        r == guard(ok(pipe1, "p1"), guard(ok(pipe2, "p2"), guard(ok(write, "w"),
            guard(that(tee is Ok || is_soft(tee->Err_0), "tee"),
            guard(only_if(tee is Ok, that((tee->Ok_0) == n as i64, "n")), passed()))))),
{
    check_ok(pipe1, "p1")?;
    check_ok(pipe2, "p2")?;
    check_ok(write, "w")?;
    check(match tee { Ok(_) => true, Err(e) => soft(e) }, "tee")?;
    if let Ok(v) = tee {
        check(v == n as i64, "n")?;
    }
    Ok(())
}

/// Verdict shared by the `d3_vs_*` tests: `vmsplice` of `n` bytes into a
/// pipe moves all `n`, or is unsupported.
pub fn vmsplice_n(n: usize, pipe: Sys, vmsplice: SysVal) -> (r: TestResult)
    ensures
        r == guard(ok(pipe, "p"),
            guard(that(vmsplice is Ok || is_soft(vmsplice->Err_0), "vmsplice"),
            guard(only_if(vmsplice is Ok, that((vmsplice->Ok_0) == n as i64, "n")), passed()))),
{
    check_ok(pipe, "p")?;
    check(match vmsplice { Ok(_) => true, Err(e) => soft(e) }, "vmsplice")?;
    if let Ok(v) = vmsplice {
        check(v == n as i64, "n")?;
    }
    Ok(())
}

/// A connected loopback TCP pair: listening server, client, accepted end
/// (their descriptors, in that order).
pub fn tcp_pair(
    socket: SysVal,
    reuse: Sys,
    bind: Sys,
    listen: Sys,
    name: Sys,
    client: SysVal,
    connect: Sys,
    accept: SysVal,
) -> (r: Result<(i64, i64, i64), AssertFail>)
    ensures
        r == guard(ok(socket, "s"), guard(ok(reuse, "re"), guard(ok(bind, "b"),
            guard(ok(listen, "l"), guard(ok(name, "n"), guard(ok(client, "c"),
            guard(ok(connect, "conn"),
            guard(ok(accept, "a"), Ok::<(i64, i64, i64), AssertFail>(((socket->Ok_0), (client->Ok_0), (accept->Ok_0))))))))))),
{
    let srv = check_ok(socket, "s")?;
    check_ok(reuse, "re")?;
    check_ok(bind, "b")?;
    check_ok(listen, "l")?;
    check_ok(name, "n")?;
    let cli = check_ok(client, "c")?;
    check_ok(connect, "conn")?;
    let acc = check_ok(accept, "a")?;
    Ok((srv, cli, acc))
}

/// `recv(MSG_DONTWAIT)` on an idle accepted TCP socket fails with `EAGAIN`
/// (or reports end of stream).
pub fn d3_tcp_dontwait_empty(
    pair: TestResult,
    recv: SysVal,
    close_acc: Sys,
    close_cli: Sys,
    close_srv: Sys,
) -> (r: TestResult)
    ensures
        r == guard(nested(pair), guard(that(recv is Err || recv->Ok_0 == 0, "expected eagain"),
            guard(that(recv is Ok || fails_with(recv, seq![EAGAIN, EWOULDBLOCK]), "recv"),
            guard(ok(close_acc, "a"), guard(ok(close_cli, "c"),
            guard(ok(close_srv, "s"), passed())))))),
{
    pair?;
    check(match recv { Ok(v) => v == 0, Err(_) => true }, "expected eagain")?;
    check(recv.is_ok() || failed_with(&recv, &[EAGAIN, EWOULDBLOCK]), "recv")?;
    check_ok(close_acc, "a")?;
    check_ok(close_cli, "c")?;
    check_ok(close_srv, "s")?;
    Ok(())
}

/// The calls `d3_tcp_dontwait_empty` makes besides its checks: when the
/// receive read bytes, or failed other than with EAGAIN, it closes the
/// accepted, client and listening sockets before the test fails.
pub fn tcp_dontwait_cleanup(acc: i64, cli: i64, srv: i64, recv: SysVal) -> (acts: Vec<Act>)
    ensures
        acts@ == (if (recv is Ok && recv->Ok_0 != 0) || (recv is Err && !fails_with(recv, seq![EAGAIN, EWOULDBLOCK])) { seq![Act::Close(acc), Act::Close(cli), Act::Close(srv)] } else { Seq::<Act>::empty() }),
{
    if match recv { Ok(n) => n != 0, Err(e) => !(e.0 == EAGAIN || e.0 == EWOULDBLOCK) } {
        vec![Act::Close(acc), Act::Close(cli), Act::Close(srv)]
    } else {
        vec![]
    }
}

/// After the client shuts down writing, the accepted end reads end of
/// stream.
pub fn d3_tcp_shutdown_eof(
    pair: TestResult,
    shutdown: Sys,
    recv: SysVal,
    close_acc: Sys,
    close_cli: Sys,
    close_srv: Sys,
) -> (r: TestResult)
    ensures
        r == guard(nested(pair), guard(ok(shutdown, "shut"), guard(ok(recv, "eof"),
            guard(that((recv->Ok_0) == 0, "eof"), guard(ok(close_acc, "a"),
            guard(ok(close_cli, "c"), guard(ok(close_srv, "s"), passed()))))))),
{
    pair?;
    check_ok(shutdown, "shut")?;
    let n = check_ok(recv, "eof")?;
    check(n == 0, "eof")?;
    check_ok(close_acc, "a")?;
    check_ok(close_cli, "c")?;
    check_ok(close_srv, "s")?;
    Ok(())
}

/// `recv(MSG_DONTWAIT)` on an empty bound UDP socket fails with `EAGAIN`.
pub fn d3_udp_dontwait(socket: Sys, bind: Sys, recv: SysVal, close: Sys) -> (r: TestResult)
    ensures
        r == guard(ok(socket, "s"), guard(ok(bind, "b"),
            guard(that(recv is Err, "expected eagain"),
            guard(that(recv is Ok || fails_with(recv, seq![EAGAIN, EWOULDBLOCK]), "recv"),
            guard(ok(close, "c"), passed()))))),
{
    check_ok(socket, "s")?;
    check_ok(bind, "b")?;
    check(recv.is_err(), "expected eagain")?;
    check(recv.is_ok() || failed_with(&recv, &[EAGAIN, EWOULDBLOCK]), "recv")?;
    check_ok(close, "c")?;
    Ok(())
}

/// A datagram "hi" sent over loopback arrives whole.
pub fn d3_udp_echo_small(
    sock_a: Sys,
    sock_b: Sys,
    bind: Sys,
    name: Sys,
    send: Sys,
    recv: SysVal,
    buf: [u8; 8],
    close_a: Sys,
    close_b: Sys,
) -> (r: TestResult)
    ensures
        r == guard(ok(sock_a, "a"), guard(ok(sock_b, "b"), guard(ok(bind, "ba"),
            guard(ok(name, "n"), guard(ok(send, "send"), guard(ok(recv, "recv"),
            guard(that((recv->Ok_0) == 2, "n"),
            guard(that(buf@.subrange(0, 2) == "hi".spec_bytes(), "data"), guard(ok(close_a, "ca"),
            guard(ok(close_b, "cb"), passed())))))))))),
{
    check_ok(sock_a, "a")?;
    check_ok(sock_b, "b")?;
    check_ok(bind, "ba")?;
    check_ok(name, "n")?;
    check_ok(send, "send")?;
    let n = check_ok(recv, "recv")?;
    check(n == 2, "n")?;
    check(bytes_eq(&buf[0..2], "hi".as_bytes()), "data")?;
    check_ok(close_a, "ca")?;
    check_ok(close_b, "cb")?;
    Ok(())
}

/// Verdict shared by the `d3_so_*` tests: `SO_TYPE` reads back the type the
/// socket was created with.
pub fn so_type(ty: i64, socket: Sys, get: Sys, val: [u8; 4], close: Sys) -> (r: TestResult)
    ensures
        r == guard(ok(socket, "s"), guard(ok(get, "g"),
            guard(that(le_u32(val@) as i32 == ty, "ty"), guard(ok(close, "c"), passed())))),
{
    check_ok(socket, "s")?;
    check_ok(get, "g")?;
    check(i32_from_ne_bytes(val) as i64 == ty, "ty")?;
    check_ok(close, "c")?;
    Ok(())
}

/// A byte written to a fresh anonymous mapping reads back (0x5A).
pub fn d3_mmap_anon_rw(mmap: Sys, read_back: u8, munmap: Sys) -> (r: TestResult)
    ensures
        r == guard(ok(mmap, "m"), guard(that(read_back == 0x5A, "rw"),
            guard(ok(munmap, "un"), passed()))),
{
    check_ok(mmap, "m")?;
    check(read_back == 0x5A, "rw")?;
    check_ok(munmap, "un")?;
    Ok(())
}

/// Closing descriptor -1 fails with `EBADF`.
pub fn d3_check_err_bad_fd(close: Sys) -> (r: TestResult)
    ensures
        r == guard(errs(close, EBADF, "ebadf"), passed()),
{
    check_err(close, EBADF, "ebadf")?;
    Ok(())
}

} // verus!
