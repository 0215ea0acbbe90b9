//! Live `fork`+`exec` helpers that speak first on an IPC channel, and the
//! state a parent keeps across such a nest: its TCP listen, accepted
//! connections, epoll registrations, worker threads and private memory.
//!
//! The loops of these tests (poll then read, bounded waits, epoll rounds)
//! are written as round functions: each takes what the round's syscalls
//! returned and says whether to go on, to sleep first, or what the test
//! concludes.

use vstd::prelude::*;
use vstd::string::StringSliceAdditionalSpecFns;
use crate::abi::{Timespec, EPOLLHUP, EPOLLIN, EPOLLOUT, O_NONBLOCK, POLLHUP, POLLIN};
use crate::bytes::bytes_eq;
use crate::errno::{Errno, EADDRINUSE, EAGAIN, EBADF, ECHILD};
use crate::harness::{
    AssertFail, Sys, SysVal, TestResult, all_passed, check, check_ok, fail, failure,
    first_failure, guard, nested, ok, passed, that, Round,
};

verus! {

/// An epoll event as `epoll_wait` reports it: the ready bits and the data
/// word registered with the descriptor.
#[derive(Clone, Copy, Debug, PartialEq, Eq, Structural)]
pub struct EpollEvent {
    pub events: u32,
    pub data: u64,
}

/// What a "poll, then read" loop does after its poll.
pub enum AfterPoll {
    /// Nothing was ready: poll again.
    Idle,
    /// Read from the descriptor.
    Read,
    /// Stop with this failure.
    Stop(AssertFail),
}

/// What a "poll, then read until `want` bytes" loop does after its read.
pub enum AfterRead {
    /// Poll again, with this many bytes collected.
    More(usize),
    /// Stop: the loop's result.
    Done(TestResult),
}

/// The messages one "poll, then read" loop reports.
pub struct ReadTexts {
    pub poll: &'static str,
    pub eof: &'static str,
    pub mismatch: &'static str,
    pub read: &'static str,
    pub timeout: &'static str,
}

/// The messages of `read_hello`.
pub open spec fn hello_texts() -> ReadTexts {
    ReadTexts {
        poll: "poll hello",
        eof: "ipc eof",
        mismatch: "hello",
        read: "read hello",
        timeout: "hello timeout",
    }
}

/// The messages of `read_exact_msg`.
pub open spec fn msg_texts() -> ReadTexts {
    ReadTexts {
        poll: "poll msg",
        eof: "eof before msg",
        mismatch: "msg",
        read: "read msg",
        timeout: "msg timeout",
    }
}

/// The length of the NUL-terminated executable path that `readlink` of
/// `/proc/self/exe` wrote into a buffer of `cap` bytes, NUL included; the
/// link must be non-empty and leave room for the NUL.
pub fn self_exe(readlink: SysVal, cap: usize) -> (r: Result<usize, AssertFail>)
    ensures
        r == (match readlink {
            Err(e) => Err(AssertFail { msg: "readlink /proc/self/exe", errno: Some(e) }),
            Ok(n) => if n > 0 && n < cap { Ok((n + 1) as usize) } else {
                Err(failure("exe path len"))
            },
        }),
{
    let n = check_ok(readlink, "readlink /proc/self/exe")?;
    if n > 0 && (n as u64) < (cap as u64) {
        Ok(n as usize + 1)
    } else {
        Err(fail("exe path len"))
    }
}

/// Whether child `pid` is still running, from a `wait4(pid, WNOHANG)`: 0
/// means running, `pid` or `ECHILD` means gone; another error fails.
pub fn child_still_running(pid: i64, wait: SysVal) -> (r: Result<bool, AssertFail>)
    ensures
        r == (match wait {
            Ok(p) => Ok::<bool, AssertFail>(p != pid || p == 0),
            Err(e) => if e.0 == ECHILD { Ok(false) } else { Err(failure("wait4")) },
        }),
{
    match wait {
        Ok(p) => Ok(p == 0 || p != pid),
        Err(e) => if e.0 == ECHILD { Ok(false) } else { Err(fail("wait4")) },
    }
}

/// Exit code of a helper child whose descriptor setup (`dup2` onto its
/// channel slots, in order, stopping at the first failure) went wrong:
/// 125 when one of `dups` failed; `None` when it may go on to exec.
pub fn helper_setup_exit_code(dups: &[Sys]) -> (code: Option<i32>)
    ensures
        code == (if exists|i: int| 0 <= i < dups@.len() && dups@[i] is Err { Some(125i32) } else {
            None::<i32>
        }),
{
    let mut i: usize = 0;
    while i < dups.len()
        invariant
            i <= dups.len(),
            forall|j: int| 0 <= j < i ==> dups@[j] is Ok,
        decreases dups.len() - i,
    {
        if dups[i].is_err() {
            return Some(125);
        }
        i = i + 1;
    }
    None
}

/// Exit code of the plugin-host-shaped child before its exec: 124 when
/// parking the listen or IPC socket above the low slots (`F_DUPFD` 20)
/// failed, 125 when one of the `dup2`s onto 0..4 failed, `None` to go on.
pub fn plugin_host_setup_exit_code(listen_keep: SysVal, ipc_keep: SysVal, dups: &[Sys]) -> (code:
    Option<i32>)
    ensures
        code == (if listen_keep is Err || ipc_keep is Err { Some(124i32) } else if exists|i: int|
            0 <= i < dups@.len() && dups@[i] is Err { Some(125i32) } else { None::<i32> }),
{
    if listen_keep.is_err() || ipc_keep.is_err() {
        return Some(124);
    }
    helper_setup_exit_code(dups)
}

/// The descriptor layout the plugin-host-shaped child sets up before its
/// exec, as `dup2(from, to)` pairs in order: the stdin, stdout and stderr
/// socket ends onto 0, 1 and 2, the IPC socket (parked at `ipc_keep`) onto
/// 3 and the listen socket (parked at `listen_keep`) onto 4.
pub fn plugin_host_dups(in_b: i64, out_b: i64, err_b: i64, ipc_keep: i64, listen_keep: i64) -> (pairs: Vec<(i64, i64)>)
    ensures
        pairs@ == seq![(in_b, 0i64), (out_b, 1i64), (err_b, 2i64), (ipc_keep, 3i64), (listen_keep, 4i64)],
{
    let v = vec![(in_b, 0i64), (out_b, 1i64), (err_b, 2i64), (ipc_keep, 3i64), (listen_keep, 4i64)];
    proof {
        assert(v@ =~= seq![(in_b, 0i64), (out_b, 1i64), (err_b, 2i64), (ipc_keep, 3i64), (listen_keep, 4i64)]);
    }
    v
}

/// What the plugin-host-shaped child closes after its `dup2`s, in order:
/// each source descriptor that did not land on its own slot, and the
/// spawn-error end `st_b` unless it is descriptor 4.
pub open spec fn spec_plugin_host_closes(in_b: i64, out_b: i64, err_b: i64, ipc_b: i64, ipc_keep: i64, listen_keep: i64, listen: i64, st_b: i64) -> Seq<i64> {
    (if in_b != 0 { seq![in_b] } else { Seq::empty() }) + (if out_b != 1 { seq![out_b] } else {
        Seq::empty()
    }) + (if err_b != 2 { seq![err_b] } else { Seq::empty() }) + (if ipc_b != 3 { seq![ipc_b] } else {
        Seq::empty()
    }) + (if ipc_keep != 3 { seq![ipc_keep] } else { Seq::empty() }) + (if listen_keep != 4 {
        seq![listen_keep]
    } else {
        Seq::empty()
    }) + (if listen != 4 { seq![listen] } else { Seq::empty() }) + (if st_b != 4 { seq![st_b] } else {
        Seq::empty()
    })
}

fn push_unless(v: &mut Vec<i64>, fd: i64, slot: i64)
    ensures
        final(v)@ == old(v)@ + (if fd != slot { seq![fd] } else { Seq::<i64>::empty() }),
{
    if fd != slot {
        v.push(fd);
    }
    proof {
        assert(v@ =~= old(v)@ + (if fd != slot { seq![fd] } else { Seq::<i64>::empty() }));
    }
}

/// The closes of the plugin-host-shaped child after its `dup2`s (see
/// `spec_plugin_host_closes`).
pub fn plugin_host_closes(in_b: i64, out_b: i64, err_b: i64, ipc_b: i64, ipc_keep: i64, listen_keep: i64, listen: i64, st_b: i64) -> (fds: Vec<i64>)
    ensures
        fds@ == spec_plugin_host_closes(in_b, out_b, err_b, ipc_b, ipc_keep, listen_keep, listen, st_b),
{
    let mut v: Vec<i64> = Vec::new();
    push_unless(&mut v, in_b, 0);
    push_unless(&mut v, out_b, 1);
    push_unless(&mut v, err_b, 2);
    push_unless(&mut v, ipc_b, 3);
    push_unless(&mut v, ipc_keep, 3);
    push_unless(&mut v, listen_keep, 4);
    push_unless(&mut v, listen, 4);
    push_unless(&mut v, st_b, 4);
    proof {
        assert(v@ =~= spec_plugin_host_closes(in_b, out_b, err_b, ipc_b, ipc_keep, listen_keep, listen, st_b));
    }
    v
}

/// The program the plugin-host-shaped child execs: `/bin/sh` with argv
/// `sh`, `-c`, `read line <&3` (a builtin read that blocks on the IPC
/// descriptor) and the environment `NODE_CHANNEL_FD=3`.
pub fn plugin_host_exec() -> (r: (&'static str, Vec<&'static str>, Vec<&'static str>))
    ensures
        r.0 == "/bin/sh",
        r.1@ == seq!["sh", "-c", "read line <&3"],
        r.2@ == seq!["NODE_CHANNEL_FD=3"],
{
    let argv = vec!["sh", "-c", "read line <&3"];
    let envp = vec!["NODE_CHANNEL_FD=3"];
    proof {
        assert(argv@ =~= seq!["sh", "-c", "read line <&3"]);
        assert(envp@ =~= seq!["NODE_CHANNEL_FD=3"]);
    }
    ("/bin/sh", argv, envp)
}

/// The status-flag word that sets `O_NONBLOCK` on top of `fl`, as
/// `F_SETFL` takes it.
pub fn nonblock_flags(fl: i64) -> (r: usize)
    ensures
        r == ((fl as i32) | (O_NONBLOCK as i32)) as usize,
{
    ((fl as i32) | (O_NONBLOCK as i32)) as usize
}

/// The registration of `fd` for `events`, with the descriptor as data word.
pub fn epoll_registration(fd: i32, events: u32) -> (ev: EpollEvent)
    ensures
        ev == (EpollEvent { events, data: fd as u64 }),
{
    EpollEvent { events, data: fd as u64 }
}

/// Whether one of the first `n` events of `out` reports `bit` for `data`.
pub open spec fn reports(out: Seq<EpollEvent>, n: int, data: u64, bit: u32) -> bool {
    exists|i: int| 0 <= i < n && i < out.len() && out[i].data == data && out[i].events & bit != 0
}

/// Whether `epoll_wait`'s `n` events in `out` report `bit` for `data`.
pub fn events_report(out: &[EpollEvent], n: usize, data: u64, bit: u32) -> (r: bool)
    ensures
        r == reports(out@, n as int, data, bit),
{
    let mut i: usize = 0;
    while i < n && i < out.len()
        invariant
            i <= n,
            i <= out.len(),
            forall|j: int| 0 <= j < i ==> !(out@[j].data == data && out@[j].events & bit != 0),
        decreases out.len() - i,
    {
        if out[i].data == data && out[i].events & bit != 0 {
            return true;
        }
        i = i + 1;
    }
    false
}

/// Whether an event is live I/O: readable or writable and not hung up.
pub open spec fn is_live_io(e: EpollEvent) -> bool {
    e.events & ((EPOLLIN | EPOLLOUT) as u32) != 0 && e.events & (EPOLLHUP as u32) == 0
}

/// Whether an event is live I/O: readable or writable and not hung up.
pub fn epoll_event_is_live_io(e: &EpollEvent) -> (r: bool)
    ensures
        r == is_live_io(*e),
{
    e.events & ((EPOLLIN | EPOLLOUT) as u32) != 0 && e.events & (EPOLLHUP as u32) == 0
}

/// Whether one of the first `n` events of `out` is live I/O.
pub open spec fn any_live(out: Seq<EpollEvent>, n: int) -> bool {
    exists|i: int| 0 <= i < n && i < out.len() && is_live_io(out[i])
}

/// Whether one of `epoll_wait`'s `n` events in `out` is live I/O.
pub fn any_live_io(out: &[EpollEvent], n: usize) -> (r: bool)
    ensures
        r == any_live(out@, n as int),
{
    let mut i: usize = 0;
    while i < n && i < out.len()
        invariant
            i <= n,
            i <= out.len(),
            forall|j: int| 0 <= j < i ==> !is_live_io(out@[j]),
        decreases out.len() - i,
    {
        if epoll_event_is_live_io(&out[i]) {
            return true;
        }
        i = i + 1;
    }
    false
}

/// `x` clamped to the range of `i64`, as the saturating operations give it.
pub open spec fn clamp64(x: int) -> int {
    if x > i64::MAX { i64::MAX as int } else if x < i64::MIN { i64::MIN as int } else { x }
}

/// Division that rounds toward zero, as Rust's `/` on integers does.
pub open spec fn div_toward_zero(a: int, b: int) -> int {
    if a >= 0 { a / b } else { -((-a) / b) }
}

/// A time in whole milliseconds: seconds times 1000 plus the whole
/// milliseconds of the nanoseconds, saturating at each step.
pub open spec fn spec_timespec_ms(t: Timespec) -> int {
    clamp64(clamp64(t.tv_sec * 1000) + div_toward_zero(t.tv_nsec as int, 1_000_000))
}

fn clamp_i128(x: i128) -> (r: i64)
    requires
        i128::MIN <= x <= i128::MAX,
    ensures
        r == clamp64(x as int),
{
    if x > i64::MAX as i128 {
        i64::MAX
    } else if x < i64::MIN as i128 {
        i64::MIN
    } else {
        x as i64
    }
}

/// A time in whole milliseconds (see `spec_timespec_ms`).
pub fn timespec_ms(t: &Timespec) -> (r: i64)
    ensures
        r == spec_timespec_ms(*t),
{
    let s = clamp_i128(t.tv_sec as i128 * 1000);
    let n = t.tv_nsec as i128;
    let q: i128 = if n >= 0 { n / 1_000_000 } else { -((-n) / 1_000_000) };
    clamp_i128(s as i128 + q)
}

/// The milliseconds from `t0` to `t1`, saturating.
pub fn elapsed_ms(t0: &Timespec, t1: &Timespec) -> (r: i64)
    ensures
        r == clamp64(spec_timespec_ms(*t1) - spec_timespec_ms(*t0)),
{
    let a = timespec_ms(t1);
    let b = timespec_ms(t0);
    clamp_i128(a as i128 - b as i128)
}

/// From a time to a time not before it, with valid nanoseconds and
/// non-negative seconds (as clocks report them), no negative number of
/// milliseconds elapses.
pub proof fn lemma_elapsed_ms_not_negative(t0: Timespec, t1: Timespec)
    requires
        0 <= t0.tv_sec,
        0 <= t0.tv_nsec < 1_000_000_000,
        0 <= t1.tv_nsec < 1_000_000_000,
        t1.tv_sec > t0.tv_sec || (t1.tv_sec == t0.tv_sec && t1.tv_nsec >= t0.tv_nsec),
    ensures
        spec_timespec_ms(t0) <= spec_timespec_ms(t1),
        clamp64(spec_timespec_ms(t1) - spec_timespec_ms(t0)) >= 0,
{
    let q0 = div_toward_zero(t0.tv_nsec as int, 1_000_000);
    let q1 = div_toward_zero(t1.tv_nsec as int, 1_000_000);
    assert(0 <= q0 < 1000);
    assert(0 <= q1 < 1000);
    if t1.tv_sec == t0.tv_sec {
        assert(q0 <= q1);
    } else {
        assert(t1.tv_sec * 1000 >= t0.tv_sec * 1000 + 1000);
    }
}

/// Whether `got` begins with `want`.
pub open spec fn starts_with(got: Seq<u8>, want: Seq<u8>) -> bool {
    want.len() <= got.len() && got.subrange(0, want.len() as int) == want
}

/// Whether `got` begins with `want`.
pub fn prefix_eq(got: &[u8], want: &[u8]) -> (r: bool)
    ensures
        r == starts_with(got@, want@),
{
    if want.len() > got.len() {
        return false;
    }
    let mut i: usize = 0;
    while i < want.len()
        invariant
            want.len() <= got.len(),
            i <= want.len(),
            forall|j: int| 0 <= j < i ==> got@[j] == want@[j],
        decreases want.len() - i,
    {
        if got[i] != want[i] {
            assert(got@.subrange(0, want@.len() as int)[i as int] != want@[i as int]);
            return false;
        }
        i = i + 1;
    }
    assert(got@.subrange(0, want@.len() as int) =~= want@);
    true
}

/// Whether every byte of `buf` is `b`.
pub open spec fn all_bytes(buf: Seq<u8>, b: u8) -> bool {
    forall|i: int| 0 <= i < buf.len() ==> buf[i] == b
}

/// Whether every byte of `buf` is `b`.
pub fn all_bytes_are(buf: &[u8], b: u8) -> (r: bool)
    ensures
        r == all_bytes(buf@, b),
{
    let mut i: usize = 0;
    while i < buf.len()
        invariant
            i <= buf.len(),
            forall|j: int| 0 <= j < i ==> buf@[j] == b,
        decreases buf.len() - i,
    {
        if buf[i] != b {
            return false;
        }
        i = i + 1;
    }
    true
}

/// After the poll of a "poll, then read" loop: a failed poll stops the
/// loop with `poll_msg`; no ready descriptor polls again; a hang-up without
/// readable data stops with `hup_msg` when the loop watches for hang-ups;
/// otherwise the loop reads.
pub open spec fn spec_after_poll(poll: SysVal, revents: i64, poll_msg: &'static str, hup_msg:
    Option<&'static str>) -> AfterPoll {
    match poll {
        Err(e) => AfterPoll::Stop(AssertFail { msg: poll_msg, errno: Some(e) }),
        Ok(n) => if n == 0 {
            AfterPoll::Idle
        } else if hup_msg is Some && revents & POLLHUP != 0 && revents & POLLIN == 0 {
            AfterPoll::Stop(failure(hup_msg->Some_0))
        } else {
            AfterPoll::Read
        },
    }
}

/// After the poll of a "poll, then read" loop (see `spec_after_poll`).
pub fn after_poll(poll: SysVal, revents: i64, poll_msg: &'static str, hup_msg: Option<
    &'static str,
>) -> (r: AfterPoll)
    ensures
        r == spec_after_poll(poll, revents, poll_msg, hup_msg),
{
    match poll {
        Err(e) => AfterPoll::Stop(AssertFail { msg: poll_msg, errno: Some(e) }),
        Ok(n) => if n == 0 {
            AfterPoll::Idle
        } else {
            match hup_msg {
                Some(m) => if revents & POLLHUP != 0 && revents & POLLIN == 0 {
                    AfterPoll::Stop(fail(m))
                } else {
                    AfterPoll::Read
                },
                None => AfterPoll::Read,
            }
        },
    }
}

/// After a read of a "poll, then read until `want` bytes" loop that had
/// `filled` bytes: end of stream fails; data adds up, and once `want.len()`
/// bytes are in, the first `want.len()` bytes of `got` (the buffer after the
/// read) must be `want`; `EAGAIN` polls again; another error fails.
pub open spec fn spec_after_read(texts: ReadTexts, want: Seq<u8>, got: Seq<u8>, filled: int, read:
    SysVal) -> AfterRead {
    match read {
        Ok(n) => if n == 0 {
            AfterRead::Done(Err(failure(texts.eof)))
        } else if filled + n >= want.len() {
            AfterRead::Done(if starts_with(got, want) { Ok(()) } else { Err(failure(texts.mismatch)) })
        } else {
            AfterRead::More((filled + n) as usize)
        },
        Err(e) => if e.0 == EAGAIN {
            AfterRead::More(filled as usize)
        } else {
            AfterRead::Done(Err(failure(texts.read)))
        },
    }
}

/// A "poll, then read until `want` bytes" loop passes only on the right
/// bytes: it ends in a pass only after a read that brought the count to
/// `want.len()` with the first `want.len()` bytes of the buffer equal to
/// `want`; once the count is reached with any other bytes it ends in the
/// mismatch failure.
pub proof fn lemma_after_read_checks_bytes(texts: ReadTexts, want: Seq<u8>, got: Seq<u8>, filled: int, read: SysVal)
    ensures
        spec_after_read(texts, want, got, filled, read) == AfterRead::Done(Ok(())) ==> read is Ok
            && read->Ok_0 != 0 && filled + read->Ok_0 >= want.len() && want.len() <= got.len()
            && forall|i: int| #![trigger got[i]] 0 <= i < want.len() ==> got[i] == want[i],
        read is Ok && read->Ok_0 > 0 && filled + read->Ok_0 >= want.len() && (want.len() > got.len()
            || exists|i: int| 0 <= i < want.len() && #[trigger] got[i] != want[i])
            ==> spec_after_read(texts, want, got, filled, read) == AfterRead::Done(
            Err(AssertFail { msg: texts.mismatch, errno: None }),
        ),
        read == Ok::<i64, Errno>(0) ==> spec_after_read(texts, want, got, filled, read) == AfterRead::Done(
            Err(AssertFail { msg: texts.eof, errno: None }),
        ),
        read is Ok && read->Ok_0 > 0 && filled + read->Ok_0 < want.len() ==> spec_after_read(texts, want, got, filled, read)
            == AfterRead::More((filled + read->Ok_0) as usize),
{
    if spec_after_read(texts, want, got, filled, read) == AfterRead::Done(Ok(())) {
        assert(read is Ok && read->Ok_0 != 0 && filled + read->Ok_0 >= want.len());
        assert(starts_with(got, want));
        assert forall|i: int| #![trigger got[i]] 0 <= i < want.len() implies got[i] == want[i] by {
            assert(got.subrange(0, want.len() as int)[i] == got[i]);
        }
    }
    if read is Ok && read->Ok_0 > 0 && filled + read->Ok_0 >= want.len() && want.len() <= got.len() && exists|i: int|
        0 <= i < want.len() && #[trigger] got[i] != want[i] {
        let i = choose|i: int| 0 <= i < want.len() && #[trigger] got[i] != want[i];
        assert(got.subrange(0, want.len() as int)[i] == got[i]);
    }
}

fn after_read(texts: &ReadTexts, want: &[u8], got: &[u8], filled: usize, read: SysVal) -> (r:
    AfterRead)
    requires
        filled < want.len() <= 8,
        read is Ok ==> 0 <= read->Ok_0 <= 8,
    ensures
        r == spec_after_read(*texts, want@, got@, filled as int, read),
{
    match read {
        Ok(n) => if n == 0 {
            AfterRead::Done(Err(fail(texts.eof)))
        } else if filled as i64 + n >= want.len() as i64 {
            if prefix_eq(got, want) {
                AfterRead::Done(Ok(()))
            } else {
                AfterRead::Done(Err(fail(texts.mismatch)))
            }
        } else {
            AfterRead::More(filled + n as usize)
        },
        Err(e) => if e.0 == EAGAIN {
            AfterRead::More(filled)
        } else {
            AfterRead::Done(Err(fail(texts.read)))
        },
    }
}

/// After the poll of `read_hello`'s loop: its messages, hang-ups watched.
pub fn read_hello_after_poll(poll: SysVal, revents: i64) -> (r: AfterPoll)
    ensures
        r == spec_after_poll(poll, revents, hello_texts().poll, Some(hello_texts().eof)),
{
    after_poll(poll, revents, "poll hello", Some("ipc eof"))
}

/// After a read of `read_hello`'s loop, which waits for `HELLO` in a
/// five-byte buffer `got`, `filled` bytes of which were in before the read
/// (a read returns at most the room left).
pub fn read_hello_after_read(got: &[u8; 5], filled: usize, read: SysVal) -> (r: AfterRead)
    requires
        filled < 5,
        read is Ok ==> 0 <= read->Ok_0 <= 5 - filled,
    ensures
        r == spec_after_read(hello_texts(), "HELLO".spec_bytes(), got@, filled as int, read),
{
    proof {
        reveal_strlit("HELLO");
        vstd::string::is_ascii_spec_bytes("HELLO");
    }
    let texts = ReadTexts {
        poll: "poll hello",
        eof: "ipc eof",
        mismatch: "hello",
        read: "read hello",
        timeout: "hello timeout",
    };
    after_read(&texts, "HELLO".as_bytes(), got, filled, read)
}

/// The failure of `read_hello` when its 50 polls pass without `HELLO`.
pub fn read_hello_timeout() -> (f: AssertFail)
    ensures
        f == failure(hello_texts().timeout),
{
    fail("hello timeout")
}

/// After the poll of `read_exact_msg`'s loop: its messages, hang-ups
/// watched.
pub fn read_exact_msg_after_poll(poll: SysVal, revents: i64) -> (r: AfterPoll)
    ensures
        r == spec_after_poll(poll, revents, msg_texts().poll, Some(msg_texts().eof)),
{
    after_poll(poll, revents, "poll msg", Some("eof before msg"))
}

/// After a read of `read_exact_msg`'s loop, which waits for the non-empty
/// `want` in the eight-byte buffer `got`, `filled` bytes of which were in
/// before the read (a read returns at most `want.len() - filled` bytes).
pub fn read_exact_msg_after_read(want: &[u8], got: &[u8; 8], filled: usize, read: SysVal) -> (r:
    AfterRead)
    requires
        filled < want.len() <= 8,
        read is Ok ==> 0 <= read->Ok_0 <= want.len() - filled,
    ensures
        r == spec_after_read(msg_texts(), want@, got@, filled as int, read),
{
    let texts = ReadTexts {
        poll: "poll msg",
        eof: "eof before msg",
        mismatch: "msg",
        read: "read msg",
        timeout: "msg timeout",
    };
    after_read(&texts, want, got, filled, read)
}

/// The failure of `read_exact_msg` when its 80 polls pass without `want`.
pub fn read_exact_msg_timeout() -> (f: AssertFail)
    ensures
        f == failure(msg_texts().timeout),
{
    fail("msg timeout")
}

/// What `reap_or_kill` does after its `i`th `wait4(pid, WNOHANG)`: stop
/// once it returned `pid`, otherwise sleep and poll again, up to 50 polls,
/// after which the caller kills the child and reaps it.
pub enum Reap {
    Reaped,
    Sleep,
    Kill,
}

/// The step of `reap_or_kill` (see `Reap`).
pub fn reap_or_kill(pid: i64, i: u32, wait: SysVal) -> (r: Reap)
    ensures
        r == (if wait == Ok::<i64, Errno>(pid) { Reap::Reaped } else if i + 1 < 50 { Reap::Sleep } else {
            Reap::Kill
        }),
{
    match wait {
        Ok(p) => if p == pid {
            return Reap::Reaped;
        },
        Err(_) => {},
    }
    if i < 49 {
        Reap::Sleep
    } else {
        Reap::Kill
    }
}

/// The step of `wait_exited` after its `i`th `wait4(pid, WNOHANG)` with
/// `status`: the status once it returned `pid`; a sleep when the child is
/// still running (0), another poll for another pid; "wait ECHILD" or
/// "wait4" on errors; "child did not exit" once 50 polls passed.
pub fn wait_exited(pid: i64, i: u32, wait: SysVal, status: i32) -> (r: Round<i32>)
    ensures
        r == (match wait {
            Ok(p) => if p == pid { Round::Done(Ok(status)) } else if i + 1 >= 50 {
                Round::Done(Err(failure("child did not exit")))
            } else if p == 0 { Round::Sleep } else { Round::<i32>::Again },
            Err(e) => Round::Done(Err(failure(if e.0 == ECHILD { "wait ECHILD" } else { "wait4" }))),
        }),
{
    match wait {
        Ok(p) => if p == pid {
            Round::Done(Ok(status))
        } else if i >= 49 {
            Round::Done(Err(fail("child did not exit")))
        } else if p == 0 {
            Round::Sleep
        } else {
            Round::Again
        },
        Err(e) => if e.0 == ECHILD {
            Round::Done(Err(fail("wait ECHILD")))
        } else {
            Round::Done(Err(fail("wait4")))
        },
    }
}

/// Events past the end of the buffer are never reported: only the first
/// `min(n, out.len())` count.
proof fn lemma_reports_capped(out: Seq<EpollEvent>, n: int, k: int, data: u64, bit: u32)
    requires
        out.len() <= usize::MAX,
        k == (if n <= 0 { 0 } else if n <= usize::MAX { n } else { usize::MAX as int }),
    ensures
        n >= 0 ==> reports(out, n, data, bit) == reports(out, k, data, bit),
        n >= 0 ==> any_live(out, n) == any_live(out, k),
{
    if n >= 0 && reports(out, n, data, bit) {
        let j = choose|j: int| 0 <= j < n && j < out.len() && out[j].data == data && out[j].events
            & bit != 0;
        assert(0 <= j < k);
    }
    if n >= 0 && any_live(out, n) {
        let j = choose|j: int| 0 <= j < n && j < out.len() && is_live_io(out[j]);
        assert(0 <= j < k);
    }
}

/// The step of `wait_epoll_bit` after its `i`th of `iters` `epoll_wait`s,
/// which reported `n` events in `out`: true once they report `bit` for
/// `data`, false once `iters` rounds passed, a failure when the wait failed.
pub fn wait_epoll_bit(data: u64, bit: u32, i: u32, iters: u32, wait: SysVal, out: &[EpollEvent])
    -> (r: Round<bool>)
    ensures
        r == (match wait {
            Err(e) => Round::Done(Err(AssertFail { msg: "epoll_wait", errno: Some(e) })),
            Ok(n) => if 0 <= n && reports(out@, n as int, data, bit) { Round::Done(Ok(true)) } else if i
                + 1 >= iters { Round::Done(Ok(false)) } else { Round::<bool>::Again },
        }),
{
    let n = match check_ok(wait, "epoll_wait") {
        Ok(n) => n,
        Err(f) => return Round::Done(Err(f)),
    };
    let k: usize = if n <= 0 { 0 } else if (n as u64) <= (usize::MAX as u64) { n as usize } else {
        usize::MAX
    };
    let len = out.len();
    proof {
        assert(out@.len() == len);
        lemma_reports_capped(out@, n as int, k as int, data, bit);
    }
    if n >= 0 && events_report(out, k, data, bit) {
        return Round::Done(Ok(true));
    }
    if i >= iters || iters - i <= 1 {
        Round::Done(Ok(false))
    } else {
        Round::Again
    }
}

/// The step of the drain in `epoll_goes_idle` after its `i`th of 64
/// `epoll_wait(0)`s, which reported `n` events in `out`: drained (true)
/// once none of them is live I/O; not drained (false) after 64 rounds.
pub fn epoll_goes_idle_drain(i: u32, wait: SysVal, out: &[EpollEvent]) -> (r: Round<bool>)
    ensures
        r == (match wait {
            Err(e) => Round::Done(Err(AssertFail { msg: "epoll drain", errno: Some(e) })),
            Ok(n) => if n == 0 || (n > 0 && !any_live(out@, n as int)) { Round::Done(Ok(true)) } else if i
                + 1 >= 64 { Round::Done(Ok(false)) } else { Round::<bool>::Again },
        }),
{
    let n = match check_ok(wait, "epoll drain") {
        Ok(n) => n,
        Err(f) => return Round::Done(Err(f)),
    };
    if n == 0 {
        return Round::Done(Ok(true));
    }
    let k: usize = if n <= 0 { 0 } else if (n as u64) <= (usize::MAX as u64) { n as usize } else {
        usize::MAX
    };
    let len = out.len();
    proof {
        assert(out@.len() == len);
        lemma_reports_capped(out@, n as int, k as int, 0, 0);
    }
    if n > 0 && !any_live_io(out, k) {
        return Round::Done(Ok(true));
    }
    if i >= 63 {
        Round::Done(Ok(false))
    } else {
        Round::Again
    }
}

/// The end of `epoll_goes_idle` once drained: with the monotonic clock
/// read before (`t0`) and after (`t1`) an `epoll_wait` of 50 ms that
/// reported `n` events in `out`, the wait counts as idle when it reported
/// no live I/O and lasted at least 20 ms.
pub fn epoll_goes_idle_wait(
    t0: Result<Timespec, Errno>,
    wait: SysVal,
    out: &[EpollEvent],
    t1: Result<Timespec, Errno>,
) -> (r: Result<bool, AssertFail>)
    ensures
        r == (match t0 {
            Err(e) => Err(AssertFail { msg: "clock before idle", errno: Some(e) }),
            Ok(a) => match wait {
                Err(e) => Err(AssertFail { msg: "epoll idle", errno: Some(e) }),
                Ok(n) => match t1 {
                    Err(e) => Err(AssertFail { msg: "clock after idle", errno: Some(e) }),
                    Ok(b) => if n != 0 && any_live(out@, if n < 0 { 0 } else { n as int }) {
                        Ok(false)
                    } else {
                        Ok(clamp64(spec_timespec_ms(b) - spec_timespec_ms(a)) >= 20)
                    },
                },
            },
        }),
{
    let a = check_ok(t0, "clock before idle")?;
    let n = check_ok(wait, "epoll idle")?;
    let b = check_ok(t1, "clock after idle")?;
    let k: usize = if n <= 0 { 0 } else if (n as u64) <= (usize::MAX as u64) { n as usize } else {
        usize::MAX
    };
    let len = out.len();
    proof {
        assert(out@.len() == len);
        lemma_reports_capped(out@, n as int, k as int, 0, 0);
    }
    if n != 0 && any_live_io(out, k) {
        return Ok(false);
    }
    Ok(elapsed_ms(&a, &b) >= 20)
}

/// The step of `spawn_error_read_eof` after a read of the spawn-error
/// socket that a poll reported ready: end of stream passes; data, `EBADF`
/// or another error fails; `EAGAIN` polls again.
pub fn spawn_error_after_read(read: SysVal) -> (r: Round<()>)
    ensures
        r == (match read {
            Ok(n) => if n == 0 { Round::Done(Ok(())) } else { Round::Done(Err(failure("spawn-error had data"))) },
            Err(e) => if e.0 == EAGAIN { Round::<()>::Again } else if e.0 == EBADF {
                Round::Done(Err(failure("spawn-error read EBADF")))
            } else { Round::Done(Err(failure("spawn-error read"))) },
        }),
{
    match read {
        Ok(n) => if n == 0 { Round::Done(Ok(())) } else { Round::Done(Err(fail("spawn-error had data"))) },
        Err(e) => if e.0 == EAGAIN {
            Round::Again
        } else if e.0 == EBADF {
            Round::Done(Err(fail("spawn-error read EBADF")))
        } else {
            Round::Done(Err(fail("spawn-error read")))
        },
    }
}

/// How many nonblocking reads the "worker started" wait of the ppoll tests
/// makes at most.
pub const WORKER_READY_READS: u32 = 10_000;

/// The step of the "worker started" wait of the ppoll tests after a
/// nonblocking read of the ready pipe: a byte means the worker runs; `EAGAIN`
/// spins (10,000 spin-loop turns) and reads again; an empty read reads
/// again; another error gives up, and so does the last of
/// `WORKER_READY_READS` reads that saw nothing, after which the test fails
/// with "worker never started".
pub enum Ready {
    Seen,
    Spin,
    Retry,
    GiveUp,
}

/// The step of the "worker started" wait after its `i`th read (see
/// `Ready`).
pub fn worker_ready_step(i: u32, read: SysVal) -> (r: Ready)
    requires
        i < WORKER_READY_READS,
    ensures
        r == (match read {
            Ok(n) => if n > 0 { Ready::Seen } else if i + 1 >= WORKER_READY_READS { Ready::GiveUp } else {
                Ready::Retry
            },
            Err(e) => if e.0 == EAGAIN && i + 1 < WORKER_READY_READS { Ready::Spin } else {
                Ready::GiveUp
            },
        }),
{
    let last = i + 1 >= WORKER_READY_READS;
    match read {
        Ok(n) => if n > 0 { Ready::Seen } else if last { Ready::GiveUp } else { Ready::Retry },
        Err(e) => if e.0 == EAGAIN && !last { Ready::Spin } else { Ready::GiveUp },
    }
}

/// How many 1 ms sleeps a wait for the worker's tick count makes at most.
pub const WORKER_TICK_WAITS: u32 = 400;

/// The step of the waits for the worker thread of
/// `spawn_nested_worker_epoll_infinite_goes_idle` to tick (its first tick
/// after being primed, `before` 0; its tick after the nest, `before` the
/// count seen before it): after `i` sleeps, with the count at `ticks`,
/// whether to sleep 1 ms and look again; the wait ends once the count
/// passed `before` or after `WORKER_TICK_WAITS` sleeps, and the test goes
/// on either way.
pub fn worker_tick_wait(i: u32, ticks: u64, before: u64) -> (again: bool)
    ensures
        again == (ticks <= before && i < WORKER_TICK_WAITS),
{
    ticks <= before && i < WORKER_TICK_WAITS
}

/// How starting a worker thread went.
pub enum WorkerStart {
    Running,
    /// Threads are not available here: the test passes.
    Unavailable,
    /// Starting failed with the error of this name.
    Failed(&'static str),
}

/// How joining a worker thread went.
pub enum WorkerJoin {
    Joined,
    /// Threads are not available, or the join timed out: tolerated.
    Tolerated,
    /// Joining failed with the error of this name.
    Failed(&'static str),
}

/// The address hint of the `i`th of the scattered anonymous maps of
/// `elf_data_canary_survives_fork_exec_with_many_anon_maps`.
pub fn anon_map_hint(i: u64) -> (h: u64)
    requires
        i < 220,
    ensures
        h == 0x0000_0070_0000_0000u64 + i * 0x2_0000,
{
    0x0000_0070_0000_0000u64 + i * 0x2_0000
}

/// A test that first starts a worker thread: the rest of the test when it
/// runs; a pass when threads are unavailable; a failure named after the
/// error otherwise.
pub open spec fn after_start(start: WorkerStart, rest: TestResult) -> TestResult {
    match start {
        WorkerStart::Running => rest,
        WorkerStart::Unavailable => Ok(()),
        WorkerStart::Failed(name) => Err(failure(name)),
    }
}

/// The check that joining a worker did not fail.
pub open spec fn joined(j: WorkerJoin) -> crate::harness::Step {
    match j {
        WorkerJoin::Failed(name) => that(false, name),
        _ => that(true, "join"),
    }
}

/// Checks that joining a worker did not fail.
pub fn check_joined(j: WorkerJoin) -> (r: TestResult)
    ensures
        r == guard(joined(j), passed()),
{
    match j {
        WorkerJoin::Failed(name) => Err(fail(name)),
        _ => Ok(()),
    }
}

/// The failure of `spawn_error_read_eof` when its 50 polls pass without
/// end of stream.
pub fn spawn_error_eof_timeout() -> (f: AssertFail)
    ensures
        f == failure("spawn-error eof timeout"),
{
    fail("spawn-error eof timeout")
}

/// The step of the receive drain of the edge-triggered rearm tests: stop
/// at end of stream or `EAGAIN`; go on after data; fail on another error.
pub fn recv_drain_step(recv: SysVal) -> (r: Round<()>)
    ensures
        r == (match recv {
            Ok(n) => if n == 0 { Round::Done(Ok(())) } else { Round::<()>::Again },
            Err(e) => if e.0 == EAGAIN { Round::Done(Ok(())) } else { Round::Done(Err(failure("recv drain"))) },
        }),
{
    match recv {
        Ok(n) => if n == 0 { Round::Done(Ok(())) } else { Round::Again },
        Err(e) => if e.0 == EAGAIN { Round::Done(Ok(())) } else { Round::Done(Err(fail("recv drain"))) },
    }
}

/// The step of the send fill of `spawn_epoll_et_socket_out_rearm_after_eagain`
/// after its `i`th of 4096 sends: filled (true) at `EAGAIN`; not filled
/// (false) at a zero-byte send or after 4096 sends; a failure on another
/// error.
pub fn send_fill_step(i: u32, send: SysVal) -> (r: Round<bool>)
    ensures
        r == (match send {
            Ok(n) => if n == 0 || i + 1 >= 4096 { Round::Done(Ok(false)) } else { Round::<bool>::Again },
            Err(e) => if e.0 == EAGAIN { Round::Done(Ok(true)) } else { Round::Done(Err(failure("send fill"))) },
        }),
{
    match send {
        Ok(n) => if n == 0 || i >= 4095 { Round::Done(Ok(false)) } else { Round::Again },
        Err(e) => if e.0 == EAGAIN { Round::Done(Ok(true)) } else { Round::Done(Err(fail("send fill"))) },
    }
}

/// The step of the zero-filling of `file_private_mmap_canary_survives_fork_exec`
/// with `wrote` bytes written: the new total after a successful write of at
/// least one byte.
pub fn file_fill_step(wrote: usize, write: SysVal) -> (r: Result<usize, AssertFail>)
    requires
        wrote < 65536,
        write is Ok ==> write->Ok_0 <= 4096,
    ensures
        r == (match write {
            Err(e) => Err(AssertFail { msg: "write", errno: Some(e) }),
            Ok(n) => if n > 0 { Ok((wrote + n) as usize) } else { Err(failure("short write")) },
        }),
{
    let n = check_ok(write, "write")?;
    if n > 0 {
        Ok(wrote + n as usize)
    } else {
        Err(fail("short write"))
    }
}

/// The step of `drain_zombies` after one `wait4(-1, WNOHANG)`: reap again
/// only when a child was just reaped (a pid came back); stop when none is
/// ready (0), when there are no children (ECHILD) or on any other error.
pub fn drain_zombies_again(wait: SysVal) -> (again: bool)
    ensures
        again == (wait is Ok && wait->Ok_0 != 0),
{
    match wait {
        Ok(0) => false,
        Ok(_) => true,
        Err(_) => false,
    }
}

/// The message the nested idle helper writes once its epoll went idle.
pub fn idleok_message() -> (m: &'static [u8])
    ensures
        m@ == "IDLEOK".spec_bytes(),
{
    "IDLEOK".as_bytes()
}

/// The message the fd-4 helper writes on the inherited pipe.
pub fn fd4ok_message() -> (m: &'static [u8])
    ensures
        m@ == "FD4OK".spec_bytes(),
{
    "FD4OK".as_bytes()
}

/// The parent side of starting the `--ipc-channel-hello` helper: the
/// socketpair and the fork succeed (the child's own setup is
/// `helper_setup_exit_code` over its `dup2` onto fd 3).
pub fn spawn_hello_helper(sp: Sys, fork: Sys) -> (r: TestResult)
    ensures
        r == guard(ok(sp, "sp"), guard(ok(fork, "fork"), passed())),
{
    check_ok(sp, "sp")?;
    check_ok(fork, "fork")?;
    Ok(())
}

/// A fork+exec helper that writes HELLO first on fd 3 is still running
/// right after the spawn.
pub fn spawn_hello_child_still_alive(
    exe: TestResult,
    spawn: TestResult,
    still: Result<bool, AssertFail>,
) -> (r: TestResult)
    ensures
        r == guard(nested(exe), guard(nested(spawn), guard(nested(still),
            guard(that(still->Ok_0, "child already exited"), passed())))),
{
    exe?;
    spawn?;
    check(still?, "child already exited")?;
    Ok(())
}

/// The helper writes HELLO on the IPC socket before the parent writes, and
/// stays alive after it.
pub fn spawn_hello_child_speaks_first(
    exe: TestResult,
    spawn: TestResult,
    still: Result<bool, AssertFail>,
    hello: TestResult,
    still_after: Result<bool, AssertFail>,
) -> (r: TestResult)
    ensures
        r == guard(nested(exe), guard(nested(spawn), guard(nested(still),
            guard(that(still->Ok_0, "child already exited"), guard(nested(hello),
            guard(nested(still_after),
            guard(that(still_after->Ok_0, "exited after hello"), passed()))))))),
{
    exe?;
    spawn?;
    check(still?, "child already exited")?;
    hello?;
    check(still_after?, "exited after hello")?;
    Ok(())
}

/// While the helper runs, the parent still accepts a loopback TCP connection
/// and receives "web" on it (`payload` is the first three bytes of the
/// receive buffer).
pub fn spawn_hello_parent_still_accepts_tcp(
    exe: TestResult,
    spawn: TestResult,
    still: Result<bool, AssertFail>,
    hello: TestResult,
    srv: Sys,
    reuse: Sys,
    bind: Sys,
    listen: Sys,
    name: Sys,
    cli: Sys,
    connect: Sys,
    acc: Sys,
    send: Sys,
    recv: SysVal,
    payload: &[u8],
    still_after: Result<bool, AssertFail>,
) -> (r: TestResult)
    ensures
        r == guard(nested(exe), guard(nested(spawn), guard(nested(still),
            guard(that(still->Ok_0, "child already exited"), guard(nested(hello),
            guard(ok(srv, "socket"), guard(ok(reuse, "SO_REUSEADDR"), guard(ok(bind, "bind"),
            guard(ok(listen, "listen"), guard(ok(name, "getsockname"), guard(ok(cli, "client"),
            guard(ok(connect, "connect"), guard(ok(acc, "accept4"), guard(ok(send, "send"),
            guard(ok(recv, "recv"), guard(that((recv->Ok_0) == 3, "len"),
            guard(that(payload@ == "web".spec_bytes(), "payload"), guard(nested(still_after),
            guard(that(still_after->Ok_0, "helper died during accept"), passed()))))))))))))))))))),
{
    exe?;
    spawn?;
    check(still?, "child already exited")?;
    hello?;
    check_ok(srv, "socket")?;
    check_ok(reuse, "SO_REUSEADDR")?;
    check_ok(bind, "bind")?;
    check_ok(listen, "listen")?;
    check_ok(name, "getsockname")?;
    check_ok(cli, "client")?;
    check_ok(connect, "connect")?;
    check_ok(acc, "accept4")?;
    check_ok(send, "send")?;
    let n = check_ok(recv, "recv")?;
    check(n == 3, "len")?;
    check(bytes_eq(&payload, "web".as_bytes()), "payload")?;
    check(still_after?, "helper died during accept")?;
    Ok(())
}

/// With a stdout pipe besides the IPC socket, the execed helper still
/// writes HELLO on fd 3 and stays alive.
pub fn spawn_hello_stdout_pipe_and_ipc(
    exe: TestResult,
    ipc: Sys,
    pipe: Sys,
    fork: Sys,
    still: Result<bool, AssertFail>,
    hello: TestResult,
    still_after: Result<bool, AssertFail>,
) -> (r: TestResult)
    ensures
        r == guard(nested(exe), guard(ok(ipc, "ipc"), guard(ok(pipe, "stdout pipe"),
            guard(ok(fork, "fork"), guard(nested(still),
            guard(that(still->Ok_0, "child already exited"), guard(nested(hello),
            guard(nested(still_after),
            guard(that(still_after->Ok_0, "exited after hello"), passed()))))))))),
{
    exe?;
    check_ok(ipc, "ipc")?;
    check_ok(pipe, "stdout pipe")?;
    check_ok(fork, "fork")?;
    check(still?, "child already exited")?;
    hello?;
    check(still_after?, "exited after hello")?;
    Ok(())
}

/// Setting `O_NONBLOCK` (the word `nonblock_flags` of what `F_GETFL` gave)
/// with `F_SETFL`.
pub fn set_nonblock(getfl: SysVal, setfl: Sys) -> (r: TestResult)
    ensures
        r == guard(ok(getfl, "F_GETFL"), guard(ok(setfl, "F_SETFL O_NONBLOCK"), passed())),
{
    check_ok(getfl, "F_GETFL")?;
    check_ok(setfl, "F_SETFL O_NONBLOCK")?;
    Ok(())
}

/// A nonblocking TCP listen on a loopback ephemeral port.
pub fn listen_loopback(
    srv: Sys,
    reuse: Sys,
    bind: Sys,
    listen: Sys,
    nonblock: TestResult,
    name: Sys,
) -> (r: TestResult)
    ensures
        r == guard(ok(srv, "listen socket"), guard(ok(reuse, "SO_REUSEADDR"),
            guard(ok(bind, "bind"), guard(ok(listen, "listen"), guard(nested(nonblock),
            guard(ok(name, "getsockname"), passed())))))),
{
    check_ok(srv, "listen socket")?;
    check_ok(reuse, "SO_REUSEADDR")?;
    check_ok(bind, "bind")?;
    check_ok(listen, "listen")?;
    nonblock?;
    check_ok(name, "getsockname")?;
    Ok(())
}

/// The parent side of the plugin-host-shaped spawn: `/bin/sh` exists and the
/// five socketpairs and the fork succeed (the child's setup is
/// `plugin_host_setup_exit_code`).
pub fn spawn_nested_plugin_host_shape(
    access: Sys,
    ipc: Sys,
    stdin: Sys,
    stdout: Sys,
    stderr: Sys,
    spawn_error: Sys,
    fork: Sys,
) -> (r: TestResult)
    ensures
        r == guard(ok(access, "/bin/sh missing"), guard(ok(ipc, "ipc"), guard(ok(stdin, "stdin"),
            guard(ok(stdout, "stdout"), guard(ok(stderr, "stderr"),
            guard(ok(spawn_error, "spawn-error"), guard(ok(fork, "fork"), passed()))))))),
{
    check_ok(access, "/bin/sh missing")?;
    check_ok(ipc, "ipc")?;
    check_ok(stdin, "stdin")?;
    check_ok(stdout, "stdout")?;
    check_ok(stderr, "stderr")?;
    check_ok(spawn_error, "spawn-error")?;
    check_ok(fork, "fork")?;
    Ok(())
}

/// A new client connects, the listen polls readable, and the accepted
/// connection receives "GET /" (`payload`: the first five bytes received).
pub fn http_roundtrip(
    cli: Sys,
    connect: Sys,
    poll: SysVal,
    acc: Sys,
    send: Sys,
    recv: SysVal,
    payload: &[u8],
) -> (r: TestResult)
    ensures
        r == guard(ok(cli, "client"), guard(ok(connect, "connect after nest"),
            guard(ok(poll, "poll listen"),
            guard(that((poll->Ok_0) >= 1, "listen not readable after nest"),
            guard(ok(acc, "accept4"), guard(ok(send, "send"), guard(ok(recv, "recv"),
            guard(that((recv->Ok_0) == 5, "len"),
            guard(that(payload@ == "GET /".spec_bytes(), "payload"), passed()))))))))),
{
    check_ok(cli, "client")?;
    check_ok(connect, "connect after nest")?;
    let p = check_ok(poll, "poll listen")?;
    check(p >= 1, "listen not readable after nest")?;
    check_ok(acc, "accept4")?;
    check_ok(send, "send")?;
    let n = check_ok(recv, "recv")?;
    check(n == 5, "len")?;
    check(bytes_eq(&payload, "GET /".as_bytes()), "payload")?;
    Ok(())
}

/// After a nested helper inherits the TCP listen on fd 4, the parent's
/// listen is still open and still accepts.
pub fn spawn_nested_child_parent_tcp_listen_survives(
    listen: TestResult,
    nest: TestResult,
    still: Result<bool, AssertFail>,
    getfl: Sys,
    http: TestResult,
) -> (r: TestResult)
    ensures
        r == guard(nested(listen), guard(nested(nest), guard(nested(still),
            guard(that(still->Ok_0, "child already exited"),
            guard(ok(getfl, "listen fd closed by nest"), guard(nested(http), passed())))))),
{
    listen?;
    nest?;
    check(still?, "child already exited")?;
    check_ok(getfl, "listen fd closed by nest")?;
    http?;
    Ok(())
}

/// A second plugin-host-shaped spawn still leaves the listen accepting.
pub fn spawn_second_nested_plugin_host_parent_still_accepts_http(
    listen: TestResult,
    nest1: TestResult,
    still1: Result<bool, AssertFail>,
    http1: TestResult,
    nest2: TestResult,
    still2: Result<bool, AssertFail>,
    http2: TestResult,
) -> (r: TestResult)
    ensures
        r == guard(nested(listen), guard(nested(nest1), guard(nested(still1),
            guard(that(still1->Ok_0, "first child already exited"), guard(nested(http1),
            guard(nested(nest2), guard(nested(still2),
            guard(that(still2->Ok_0, "second child already exited"),
            guard(nested(http2), passed()))))))))),
{
    listen?;
    nest1?;
    check(still1?, "first child already exited")?;
    http1?;
    nest2?;
    check(still2?, "second child already exited")?;
    http2?;
    Ok(())
}

/// After the nest, `epoll_wait` still reports the listen readable (`saw`,
/// the outcome of `wait_epoll_bit` for it over 20 rounds) and the
/// connection carries "web".
pub fn spawn_nested_child_parent_epoll_still_accepts_http(
    listen: TestResult,
    ep: Sys,
    add_listen: Sys,
    nest: TestResult,
    still: Result<bool, AssertFail>,
    add_ipc: Sys,
    cli: Sys,
    connect: Sys,
    saw: Result<bool, AssertFail>,
    acc: Sys,
    send: Sys,
    recv: SysVal,
    payload: &[u8],
) -> (r: TestResult)
    ensures
        r == guard(nested(listen), guard(ok(ep, "epoll"), guard(ok(add_listen, "add listen"),
            guard(nested(nest), guard(nested(still),
            guard(that(still->Ok_0, "child already exited"), guard(ok(add_ipc, "add ipc"),
            guard(ok(cli, "client"), guard(ok(connect, "connect"), guard(nested(saw),
            guard(that(saw->Ok_0, "listen not ready in epoll after nest"),
            guard(ok(acc, "accept4"), guard(ok(send, "send"), guard(ok(recv, "recv"),
            guard(that((recv->Ok_0) == 3, "len"),
            guard(that(payload@ == "web".spec_bytes(), "payload"), passed())))))))))))))))),
{
    listen?;
    check_ok(ep, "epoll")?;
    check_ok(add_listen, "add listen")?;
    nest?;
    check(still?, "child already exited")?;
    check_ok(add_ipc, "add ipc")?;
    check_ok(cli, "client")?;
    check_ok(connect, "connect")?;
    check(saw?, "listen not ready in epoll after nest")?;
    check_ok(acc, "accept4")?;
    check_ok(send, "send")?;
    let n = check_ok(recv, "recv")?;
    check(n == 3, "len")?;
    check(bytes_eq(&payload, "web".as_bytes()), "payload")?;
    Ok(())
}

/// Registering a descriptor (see `epoll_registration`).
pub fn add_socket_to_epoll(ctl: Sys) -> (r: TestResult)
    ensures
        r == guard(ok(ctl, "epoll add"), passed()),
{
    check_ok(ctl, "epoll add")?;
    Ok(())
}

/// One receive into an eight-byte buffer returns exactly `want` (`got`: the
/// first `want.len()` bytes of the buffer).
pub fn recv_exact(want: &[u8], recv: SysVal, got: &[u8]) -> (r: TestResult)
    ensures
        r == guard(that(want@.len() <= 8, "recv_exact buf"), guard(ok(recv, "recv"),
            guard(that((recv->Ok_0) == want@.len(), "recv len"),
            guard(that(got@ == want@, "recv payload"), passed())))),
{
    check(want.len() <= 8, "recv_exact buf")?;
    let n = check_ok(recv, "recv")?;
    check(n == want.len() as i64, "recv len")?;
    check(bytes_eq(got, want), "recv payload")?;
    Ok(())
}

/// A TCP connection accepted and watched by epoll before the nest still
/// reads and writes after it, and the listen still accepts.
pub fn spawn_nested_existing_tcp_still_serves(
    listen: TestResult,
    ep: Sys,
    add_listen: TestResult,
    cli: Sys,
    connect: Sys,
    ready: Result<bool, AssertFail>,
    acc: Sys,
    nonblock: TestResult,
    add_acc: TestResult,
    send: Sys,
    page_ready: Result<bool, AssertFail>,
    page: TestResult,
    send_ok: Sys,
    recv_ok: SysVal,
    echo: &[u8],
    left: Sys,
    add_a: TestResult,
    add_b: TestResult,
    nest: TestResult,
    still: Result<bool, AssertFail>,
    add_ipc: TestResult,
    getfl: Sys,
    ping: Sys,
    ping_ready: Result<bool, AssertFail>,
    pinged: TestResult,
    send_pong: Sys,
    recv_pong: SysVal,
    pong: &[u8],
    http: TestResult,
) -> (r: TestResult)
    ensures
        r == guard(nested(listen), guard(ok(ep, "epoll"), guard(nested(add_listen),
            guard(ok(cli, "client"), guard(ok(connect, "connect page"), guard(nested(ready),
            guard(that(ready->Ok_0, "listen not ready before nest"), guard(ok(acc, "accept page"),
            guard(nested(nonblock), guard(nested(add_acc), guard(ok(send, "send page"),
            guard(nested(page_ready),
            guard(that(page_ready->Ok_0, "accepted fd not readable for page"), guard(nested(page),
            guard(ok(send_ok, "send ok"), guard(ok(recv_ok, "cli recv"),
            guard(that((recv_ok->Ok_0) == 2, "ok len"),
            guard(that(echo@ == "OK".spec_bytes(), "ok"), guard(ok(left, "leftover"),
            guard(nested(add_a), guard(nested(add_b), guard(nested(nest), guard(nested(still),
            guard(that(still->Ok_0, "child already exited"), guard(nested(add_ipc),
            guard(ok(getfl, "accepted fd closed by nest"), guard(ok(ping, "send ping"),
            guard(nested(ping_ready),
            guard(that(ping_ready->Ok_0, "accepted fd not readable after nest"),
            guard(nested(pinged), guard(ok(send_pong, "send pong"),
            guard(ok(recv_pong, "cli pong"), guard(that((recv_pong->Ok_0) == 4, "pong len"),
            guard(that(pong@ == "PONG".spec_bytes(), "pong"),
            guard(nested(http), passed()))))))))))))))))))))))))))))))))))),
{
    listen?;
    check_ok(ep, "epoll")?;
    add_listen?;
    check_ok(cli, "client")?;
    check_ok(connect, "connect page")?;
    check(ready?, "listen not ready before nest")?;
    check_ok(acc, "accept page")?;
    nonblock?;
    add_acc?;
    check_ok(send, "send page")?;
    check(page_ready?, "accepted fd not readable for page")?;
    page?;
    check_ok(send_ok, "send ok")?;
    let n = check_ok(recv_ok, "cli recv")?;
    check(n == 2, "ok len")?;
    check(bytes_eq(&echo, "OK".as_bytes()), "ok")?;
    check_ok(left, "leftover")?;
    add_a?;
    add_b?;
    nest?;
    check(still?, "child already exited")?;
    add_ipc?;
    check_ok(getfl, "accepted fd closed by nest")?;
    check_ok(ping, "send ping")?;
    check(ping_ready?, "accepted fd not readable after nest")?;
    pinged?;
    check_ok(send_pong, "send pong")?;
    let m = check_ok(recv_pong, "cli pong")?;
    check(m == 4, "pong len")?;
    check(bytes_eq(&pong, "PONG".as_bytes()), "pong")?;
    http?;
    Ok(())
}

/// After the nest, with leftover socketpairs in epoll, a 50 ms wait blocks
/// (`idle`, from `epoll_goes_idle_drain` and `epoll_goes_idle_wait`) and
/// the listen still accepts.
pub fn spawn_nested_epoll_goes_idle(
    listen: TestResult,
    ep: Sys,
    add_listen: TestResult,
    left: Sys,
    add_a: TestResult,
    add_b: TestResult,
    nest: TestResult,
    still: Result<bool, AssertFail>,
    send: Sys,
    idle: Result<bool, AssertFail>,
    http: TestResult,
) -> (r: TestResult)
    ensures
        r == guard(nested(listen), guard(ok(ep, "epoll"), guard(nested(add_listen),
            guard(ok(left, "leftover"), guard(nested(add_a), guard(nested(add_b),
            guard(nested(nest), guard(nested(still),
            guard(that(still->Ok_0, "child already exited"),
            guard(that(send is Ok, "leftover socketpair closed by nest"), guard(nested(idle),
            guard(that(idle->Ok_0, "epoll idle wait did not block after nest"),
            guard(nested(http), passed()))))))))))))),
{
    listen?;
    check_ok(ep, "epoll")?;
    add_listen?;
    check_ok(left, "leftover")?;
    add_a?;
    add_b?;
    nest?;
    check(still?, "child already exited")?;
    check(send.is_ok(), "leftover socketpair closed by nest")?;
    check(idle?, "epoll idle wait did not block after nest")?;
    http?;
    Ok(())
}

/// The spawn-error read end is still open and reads end of stream (`eof`:
/// what `after_poll` and `spawn_error_after_read` concluded over at most
/// 50 rounds, or `spawn_error_eof_timeout`).
pub fn spawn_error_read_eof(getfd: Sys, eof: TestResult) -> (r: TestResult)
    ensures
        r == guard(ok(getfd, "spawn-error read still open"), guard(nested(eof), passed())),
{
    check_ok(getfd, "spawn-error read still open")?;
    eof?;
    Ok(())
}

/// After fork+exec of /bin/true the spawn-error read end returns end of
/// stream rather than EBADF.
pub fn spawn_error_read_eof_after_true(
    access: Sys,
    sp: Sys,
    fork: Sys,
    eof: TestResult,
) -> (r: TestResult)
    ensures
        r == guard(ok(access, "/bin/true missing"), guard(ok(sp, "spawn-error"),
            guard(ok(fork, "fork"), guard(nested(eof), passed())))),
{
    check_ok(access, "/bin/true missing")?;
    check_ok(sp, "spawn-error")?;
    check_ok(fork, "fork")?;
    eof?;
    Ok(())
}

/// With a parked plugin-host helper, the spawn-error read end still returns
/// end of stream.
pub fn spawn_error_read_eof_after_plugin_host_hold(
    exe: TestResult,
    sp: Sys,
    ipc: Sys,
    fork: Sys,
    still: Result<bool, AssertFail>,
    eof: TestResult,
) -> (r: TestResult)
    ensures
        r == guard(nested(exe), guard(ok(sp, "spawn-error"), guard(ok(ipc, "ipc"),
            guard(ok(fork, "fork"), guard(nested(still),
            guard(that(still->Ok_0, "helper already exited"), guard(nested(eof), passed()))))))),
{
    exe?;
    check_ok(sp, "spawn-error")?;
    check_ok(ipc, "ipc")?;
    check_ok(fork, "fork")?;
    check(still?, "helper already exited")?;
    eof?;
    Ok(())
}

/// After the nest: the spawn-error read returns end of stream, the leftover
/// socketpair works, epoll goes idle and the listen accepts.
pub fn spawn_error_eof_after_plugin_host_nest(
    listen: TestResult,
    ep: Sys,
    add_listen: TestResult,
    left: Sys,
    add_a: TestResult,
    add_b: TestResult,
    nest: TestResult,
    still: Result<bool, AssertFail>,
    send: Sys,
    eof: TestResult,
    idle: Result<bool, AssertFail>,
    http: TestResult,
) -> (r: TestResult)
    ensures
        r == guard(nested(listen), guard(ok(ep, "epoll"), guard(nested(add_listen),
            guard(ok(left, "leftover"), guard(nested(add_a), guard(nested(add_b),
            guard(nested(nest), guard(nested(still),
            guard(that(still->Ok_0, "child already exited"),
            guard(that(send is Ok, "leftover socketpair closed by nest"), guard(nested(eof),
            guard(nested(idle), guard(that(idle->Ok_0, "epoll idle wait did not block after nest"),
            guard(nested(http), passed())))))))))))))),
{
    listen?;
    check_ok(ep, "epoll")?;
    add_listen?;
    check_ok(left, "leftover")?;
    add_a?;
    add_b?;
    nest?;
    check(still?, "child already exited")?;
    check(send.is_ok(), "leftover socketpair closed by nest")?;
    eof?;
    check(idle?, "epoll idle wait did not block after nest")?;
    http?;
    Ok(())
}

/// The parent's 1 MiB private anonymous mapping (`region`, read after the
/// child filled its copy with 0x5A and execed) still holds 0xA5.
pub fn mmap_anon_canary_survives_fork_exec(mmap: Sys, fork: Sys, region: &[u8]) -> (r: TestResult)
    ensures
        r == guard(ok(mmap, "mmap"), guard(ok(fork, "fork"),
            guard(that(all_bytes(region@, 0xA5), "parent mmap saw child's stores after fork+exec"), passed()))),
{
    check_ok(mmap, "mmap")?;
    check_ok(fork, "fork")?;
    check(all_bytes_are(region, 0xA5), "parent mmap saw child's stores after fork+exec")?;
    Ok(())
}

/// After a child overwrites ELF data and execs `sh -c true`, the parent's
/// data still holds 0xA5 and its listen still accepts.
pub fn low_gva_store_after_fork_exec_parent_http(
    listen: TestResult,
    http: TestResult,
    fork: Sys,
    canary: &[u8],
    http_after: TestResult,
) -> (r: TestResult)
    ensures
        r == guard(nested(listen), guard(nested(http), guard(ok(fork, "fork"),
            guard(that(all_bytes(canary@, 0xA5), "parent ELF data saw child's stores after fork+exec"),
            guard(that(http_after is Ok, "http after low-GVA fork+exec"), passed()))))),
{
    listen?;
    http?;
    check_ok(fork, "fork")?;
    check(all_bytes_are(canary, 0xA5), "parent ELF data saw child's stores after fork+exec")?;
    check(http_after.is_ok(), "http after low-GVA fork+exec")?;
    Ok(())
}

/// The parent can still write its private anonymous mapping after the fork
/// (`region`, read back after the parent filled it with 0x33).
pub fn mmap_anon_writable_after_fork_exec(mmap: Sys, fork: Sys, region: &[u8]) -> (r: TestResult)
    ensures
        r == guard(ok(mmap, "mmap"), guard(ok(fork, "fork"),
            guard(that(all_bytes(region@, 0x33), "parent mmap not writable after fork+exec"), passed()))),
{
    check_ok(mmap, "mmap")?;
    check_ok(fork, "fork")?;
    check(all_bytes_are(region, 0x33), "parent mmap not writable after fork+exec")?;
    Ok(())
}

/// The page added to the brk heap keeps the parent's 0xA5.
pub fn brk_canary_survives_fork_exec(
    query: SysVal,
    grow: SysVal,
    fork: Sys,
    region: &[u8],
) -> (r: TestResult)
    ensures
        r == guard(ok(query, "brk query"), guard(ok(grow, "brk grow"),
            guard(that((grow->Ok_0) >= (query->Ok_0) + 4096, "brk did not grow"),
            guard(ok(fork, "fork"),
            guard(that(all_bytes(region@, 0xA5), "parent brk heap saw child's stores after fork+exec"), passed()))))),
{
    let cur = check_ok(query, "brk query")?;
    let got = check_ok(grow, "brk grow")?;
    check(got as i128 >= cur as i128 + 4096, "brk did not grow")?;
    check_ok(fork, "fork")?;
    check(all_bytes_are(region, 0xA5), "parent brk heap saw child's stores after fork+exec")?;
    Ok(())
}

/// A stack local of the forking frame keeps its 0xAA.
pub fn stack_local_survives_fork_exec(fork: Sys, local: &[u8]) -> (r: TestResult)
    ensures
        r == guard(ok(fork, "fork"),
            guard(that(all_bytes(local@, 0xAA), "parent stack local saw child's stores after fork+exec"), passed())),
{
    check_ok(fork, "fork")?;
    check(all_bytes_are(local, 0xAA), "parent stack local saw child's stores after fork+exec")?;
    Ok(())
}

/// ELF data keeps the parent's 0xA5.
pub fn elf_data_canary_survives_fork_exec(fork: Sys, canary: &[u8]) -> (r: TestResult)
    ensures
        r == guard(ok(fork, "fork"),
            guard(that(all_bytes(canary@, 0xA5), "parent ELF data saw child's stores after fork+exec"), passed())),
{
    check_ok(fork, "fork")?;
    check(all_bytes_are(canary, 0xA5), "parent ELF data saw child's stores after fork+exec")?;
    Ok(())
}

/// ELF data keeps the parent's 0xA5 even with many scattered anonymous maps
/// dirtied (their addresses are `anon_map_hint`; failed maps are skipped).
pub fn elf_data_canary_survives_fork_exec_with_many_anon_maps(
    fork: Sys,
    canary: &[u8],
) -> (r: TestResult)
    ensures
        r == guard(ok(fork, "fork"),
            guard(that(all_bytes(canary@, 0xA5), "parent ELF data lost among many anon COW regions after fork+exec"), passed())),
{
    check_ok(fork, "fork")?;
    check(all_bytes_are(canary, 0xA5), "parent ELF data lost among many anon COW regions after fork+exec")?;
    Ok(())
}

/// The parent can still write its ELF data after the fork.
pub fn elf_data_writable_after_fork_exec(fork: Sys, canary: &[u8]) -> (r: TestResult)
    ensures
        r == guard(ok(fork, "fork"),
            guard(that(all_bytes(canary@, 0x33), "parent ELF data not writable after fork+exec"), passed())),
{
    check_ok(fork, "fork")?;
    check(all_bytes_are(canary, 0x33), "parent ELF data not writable after fork+exec")?;
    Ok(())
}

/// A file-backed private mapping keeps the parent's 0xA5 (`fill`: the
/// zero-filling of the file, see `file_fill_step`).
pub fn file_private_mmap_canary_survives_fork_exec(
    tmp: Sys,
    create: Sys,
    fill: TestResult,
    mmap: Sys,
    fork: Sys,
    region: &[u8],
) -> (r: TestResult)
    ensures
        r == guard(ok(tmp, "tempdir"), guard(ok(create, "create"), guard(nested(fill),
            guard(ok(mmap, "mmap file"), guard(ok(fork, "fork"),
            guard(that(all_bytes(region@, 0xA5), "parent file-backed mmap saw child's stores after fork+exec"), passed())))))),
{
    check_ok(tmp, "tempdir")?;
    check_ok(create, "create")?;
    fill?;
    check_ok(mmap, "mmap file")?;
    check_ok(fork, "fork")?;
    check(all_bytes_are(region, 0xA5), "parent file-backed mmap saw child's stores after fork+exec")?;
    Ok(())
}

/// A ticking worker thread (`before` and `after`: its tick count around the
/// fork+exec) keeps ticking.
pub fn clone_worker_keeps_ticking_across_fork_exec(
    start: WorkerStart,
    fork: Sys,
    join: WorkerJoin,
    started: bool,
    before: u32,
    after: u32,
) -> (r: TestResult)
    ensures
        r == after_start(start, guard(ok(fork, "fork"), guard(joined(join),
            guard(that(started, "worker never ran"),
            guard(that(after > before, "worker did not tick after fork+exec (left suspended?)"), passed()))))),
{
    match start { WorkerStart::Running => {}, WorkerStart::Unavailable => return Ok(()), WorkerStart::Failed(n) => return Err(fail(n)) }
    check_ok(fork, "fork")?;
    check_joined(join)?;
    check(started, "worker never ran")?;
    check(after > before, "worker did not tick after fork+exec (left suspended?)")?;
    Ok(())
}

/// A worker spinning `getpid` survives the parent's fork+exec.
pub fn clone_worker_getpid_survives_fork_exec(
    start: WorkerStart,
    fork: Sys,
    join: WorkerJoin,
    started: bool,
    before: u32,
    after: u32,
) -> (r: TestResult)
    ensures
        r == after_start(start, guard(ok(fork, "fork"), guard(joined(join),
            guard(that(started, "getpid worker never ran"),
            guard(that(after > before, "getpid worker did not survive fork+exec"), passed()))))),
{
    match start { WorkerStart::Running => {}, WorkerStart::Unavailable => return Ok(()), WorkerStart::Failed(n) => return Err(fail(n)) }
    check_ok(fork, "fork")?;
    check_joined(join)?;
    check(started, "getpid worker never ran")?;
    check(after > before, "getpid worker did not survive fork+exec")?;
    Ok(())
}

/// A worker spinning `clock_gettime` survives the parent's fork+exec.
pub fn clone_worker_clock_gettime_survives_fork_exec(
    start: WorkerStart,
    fork: Sys,
    join: WorkerJoin,
    started: bool,
    before: u32,
    after: u32,
) -> (r: TestResult)
    ensures
        r == after_start(start, guard(ok(fork, "fork"), guard(joined(join),
            guard(that(started, "clock_gettime worker never ran"),
            guard(that(after > before, "clock_gettime worker did not survive fork+exec"), passed()))))),
{
    match start { WorkerStart::Running => {}, WorkerStart::Unavailable => return Ok(()), WorkerStart::Failed(n) => return Err(fail(n)) }
    check_ok(fork, "fork")?;
    check_joined(join)?;
    check(started, "clock_gettime worker never ran")?;
    check(after > before, "clock_gettime worker did not survive fork+exec")?;
    Ok(())
}

/// A worker in `futex_wait` survives the parent's fork+exec.
pub fn clone_worker_futex_survives_fork_exec(
    start: WorkerStart,
    fork: Sys,
    join: WorkerJoin,
    started: bool,
    before: u32,
    after: u32,
) -> (r: TestResult)
    ensures
        r == after_start(start, guard(ok(fork, "fork"), guard(joined(join),
            guard(that(started, "futex worker never ran"),
            guard(that(after > before, "futex worker did not survive fork+exec"), passed()))))),
{
    match start { WorkerStart::Running => {}, WorkerStart::Unavailable => return Ok(()), WorkerStart::Failed(n) => return Err(fail(n)) }
    check_ok(fork, "fork")?;
    check_joined(join)?;
    check(started, "futex worker never ran")?;
    check(after > before, "futex worker did not survive fork+exec")?;
    Ok(())
}

/// With a live worker thread, the body passes; a failed join fails a test
/// whose body passed.
pub fn spawn_nested_existing_tcp_with_live_worker(
    start: WorkerStart,
    body: TestResult,
    join: WorkerJoin,
) -> (r: TestResult)
    ensures
        r == after_start(start, (match join { WorkerJoin::Failed(n) => if body is Ok { Err(failure(n)) } else { body }, _ => body })),
{
    match start { WorkerStart::Running => {}, WorkerStart::Unavailable => return Ok(()), WorkerStart::Failed(n) => return Err(fail(n)) }
    match join { WorkerJoin::Failed(n) => if body.is_ok() { Err(fail(n)) } else { body }, _ => body }
}

/// The accepted connection serves after the nest and the worker (`started`,
/// `ticked`: its ticks before and after) keeps running.
pub fn spawn_nested_existing_tcp_with_live_worker_body(
    started: bool,
    listen: TestResult,
    ep: Sys,
    add_listen: TestResult,
    cli: Sys,
    connect: Sys,
    ready: Result<bool, AssertFail>,
    acc: Sys,
    nonblock: TestResult,
    add_acc: TestResult,
    send: Sys,
    page_ready: Result<bool, AssertFail>,
    page: TestResult,
    nest: TestResult,
    still: Result<bool, AssertFail>,
    ping: Sys,
    ping_ready: Result<bool, AssertFail>,
    pinged: TestResult,
    send_pong: Sys,
    recv_pong: SysVal,
    pong: &[u8],
    ticked: bool,
) -> (r: TestResult)
    ensures
        r == guard(that(started, "worker never ran"), guard(nested(listen), guard(ok(ep, "epoll"),
            guard(nested(add_listen), guard(ok(cli, "client"), guard(ok(connect, "connect"),
            guard(nested(ready), guard(that(ready->Ok_0, "listen not ready"),
            guard(ok(acc, "accept"), guard(nested(nonblock), guard(nested(add_acc),
            guard(ok(send, "send page"), guard(nested(page_ready),
            guard(that(page_ready->Ok_0, "page not readable"), guard(nested(page),
            guard(nested(nest), guard(nested(still),
            guard(that(still->Ok_0, "child already exited"), guard(ok(ping, "send ping"),
            guard(nested(ping_ready),
            guard(that(ping_ready->Ok_0, "accepted fd not readable after nest with worker"),
            guard(nested(pinged), guard(ok(send_pong, "send pong"),
            guard(ok(recv_pong, "cli pong"), guard(that((recv_pong->Ok_0) == 4, "pong len"),
            guard(that(pong@ == "PONG".spec_bytes(), "pong"),
            guard(that(ticked, "worker stuck after nest"), passed()))))))))))))))))))))))))))),
{
    check(started, "worker never ran")?;
    listen?;
    check_ok(ep, "epoll")?;
    add_listen?;
    check_ok(cli, "client")?;
    check_ok(connect, "connect")?;
    check(ready?, "listen not ready")?;
    check_ok(acc, "accept")?;
    nonblock?;
    add_acc?;
    check_ok(send, "send page")?;
    check(page_ready?, "page not readable")?;
    page?;
    nest?;
    check(still?, "child already exited")?;
    check_ok(ping, "send ping")?;
    check(ping_ready?, "accepted fd not readable after nest with worker")?;
    pinged?;
    check_ok(send_pong, "send pong")?;
    let m = check_ok(recv_pong, "cli pong")?;
    check(m == 4, "pong len")?;
    check(bytes_eq(&pong, "PONG".as_bytes()), "pong")?;
    check(ticked, "worker stuck after nest")?;
    Ok(())
}

/// Bytes queued on an accepted connection before the nest are readable
/// after it.
pub fn spawn_nested_tcp_bytes_queued_before_nest(
    listen: TestResult,
    ep: Sys,
    add_listen: TestResult,
    cli: Sys,
    connect: Sys,
    ready: Result<bool, AssertFail>,
    acc: Sys,
    nonblock: TestResult,
    add_acc: TestResult,
    send: Sys,
    page_ready: Result<bool, AssertFail>,
    page: TestResult,
    queue: Sys,
    nest: TestResult,
    still: Result<bool, AssertFail>,
    queued_ready: Result<bool, AssertFail>,
    queued: TestResult,
) -> (r: TestResult)
    ensures
        r == guard(nested(listen), guard(ok(ep, "epoll"), guard(nested(add_listen),
            guard(ok(cli, "client"), guard(ok(connect, "connect"), guard(nested(ready),
            guard(that(ready->Ok_0, "listen not ready"), guard(ok(acc, "accept"),
            guard(nested(nonblock), guard(nested(add_acc), guard(ok(send, "send page"),
            guard(nested(page_ready), guard(that(page_ready->Ok_0, "page not readable"),
            guard(nested(page), guard(ok(queue, "queue ping before nest"), guard(nested(nest),
            guard(nested(still), guard(that(still->Ok_0, "child already exited"),
            guard(nested(queued_ready),
            guard(that(queued_ready->Ok_0, "queued bytes not readable after nest"),
            guard(nested(queued), passed()))))))))))))))))))))),
{
    listen?;
    check_ok(ep, "epoll")?;
    add_listen?;
    check_ok(cli, "client")?;
    check_ok(connect, "connect")?;
    check(ready?, "listen not ready")?;
    check_ok(acc, "accept")?;
    nonblock?;
    add_acc?;
    check_ok(send, "send page")?;
    check(page_ready?, "page not readable")?;
    page?;
    check_ok(queue, "queue ping before nest")?;
    nest?;
    check(still?, "child already exited")?;
    check(queued_ready?, "queued bytes not readable after nest")?;
    queued?;
    Ok(())
}

/// One connection of `spawn_nested_three_accepted_tcp_still_serve` before
/// the nest: connect, accept and receive the page.
pub fn three_tcp_page_round(
    cli: Sys,
    connect: Sys,
    ready: Result<bool, AssertFail>,
    acc: Sys,
    nonblock: TestResult,
    add: TestResult,
    send: Sys,
    page_ready: Result<bool, AssertFail>,
    page: TestResult,
) -> (r: TestResult)
    ensures
        r == guard(ok(cli, "client"), guard(ok(connect, "connect"), guard(nested(ready),
            guard(that(ready->Ok_0, "listen not ready"), guard(ok(acc, "accept"),
            guard(nested(nonblock), guard(nested(add), guard(ok(send, "send page"),
            guard(nested(page_ready), guard(that(page_ready->Ok_0, "page not readable"),
            guard(nested(page), passed()))))))))))),
{
    check_ok(cli, "client")?;
    check_ok(connect, "connect")?;
    check(ready?, "listen not ready")?;
    check_ok(acc, "accept")?;
    nonblock?;
    add?;
    check_ok(send, "send page")?;
    check(page_ready?, "page not readable")?;
    page?;
    Ok(())
}

/// One connection of `spawn_nested_three_accepted_tcp_still_serve` after
/// the nest: ping and pong.
pub fn three_tcp_ping_round(
    ping: Sys,
    ping_ready: Result<bool, AssertFail>,
    pinged: TestResult,
    send_pong: Sys,
    recv_pong: SysVal,
    pong: &[u8],
) -> (r: TestResult)
    ensures
        r == guard(ok(ping, "send ping"), guard(nested(ping_ready),
            guard(that(ping_ready->Ok_0, "accepted fd not readable after nest"),
            guard(nested(pinged), guard(ok(send_pong, "send pong"),
            guard(ok(recv_pong, "cli pong"), guard(that((recv_pong->Ok_0) == 4, "pong len"),
            guard(that(pong@ == "PONG".spec_bytes(), "pong"), passed())))))))),
{
    check_ok(ping, "send ping")?;
    check(ping_ready?, "accepted fd not readable after nest")?;
    pinged?;
    check_ok(send_pong, "send pong")?;
    let m = check_ok(recv_pong, "cli pong")?;
    check(m == 4, "pong len")?;
    check(bytes_eq(&pong, "PONG".as_bytes()), "pong")?;
    Ok(())
}

/// Three connections accepted before the nest (`pages`, each a
/// `three_tcp_page_round`) all serve after it (`pings`, each a
/// `three_tcp_ping_round`).
pub fn spawn_nested_three_accepted_tcp_still_serve(
    listen: TestResult,
    ep: Sys,
    add_listen: TestResult,
    pages: &[TestResult],
    nest: TestResult,
    still: Result<bool, AssertFail>,
    pings: &[TestResult],
) -> (r: TestResult)
    ensures
        r == guard(nested(listen), guard(ok(ep, "epoll"), guard(nested(add_listen),
            guard(nested(first_failure(pages@)), guard(nested(nest), guard(nested(still),
            guard(that(still->Ok_0, "child already exited"),
            guard(nested(first_failure(pings@)), passed())))))))),
{
    listen?;
    check_ok(ep, "epoll")?;
    add_listen?;
    all_passed(pages)?;
    nest?;
    check(still?, "child already exited")?;
    all_passed(pings)?;
    Ok(())
}

/// A worker blocked in `epoll_wait` still wakes after the nest (`woke`; it
/// is false when the nest failed).
pub fn spawn_nested_worker_epoll_still_wakes(
    pipe: Sys,
    nonblock: TestResult,
    ep: Sys,
    add: TestResult,
    start: WorkerStart,
    prime: Sys,
    listen: TestResult,
    nest: TestResult,
    ticks_before: u32,
    woke: bool,
) -> (r: TestResult)
    ensures
        r == guard(ok(pipe, "pipe"), guard(nested(nonblock), guard(ok(ep, "epoll"),
            guard(nested(add), after_start(start, guard(ok(prime, "prime worker"),
            guard(nested(listen), guard(nested(nest),
            guard(that(ticks_before > 0, "worker never ran"),
            guard(that(woke, "worker epoll did not wake after nest"), passed())))))))))),
{
    check_ok(pipe, "pipe")?;
    nonblock?;
    check_ok(ep, "epoll")?;
    add?;
    match start { WorkerStart::Running => {}, WorkerStart::Unavailable => return Ok(()), WorkerStart::Failed(n) => return Err(fail(n)) }
    check_ok(prime, "prime worker")?;
    listen?;
    nest?;
    check(ticks_before > 0, "worker never ran")?;
    check(woke, "worker epoll did not wake after nest")?;
    Ok(())
}

/// An edge-triggered EPOLLIN is reported again for data that arrives after
/// a receive drained the socket to `EAGAIN` (`drain`, see
/// `recv_drain_step`).
pub fn spawn_epoll_et_socket_in_rearm_after_eagain(
    sp: Sys,
    nonblock_a: TestResult,
    nonblock_b: TestResult,
    ep: Sys,
    add: TestResult,
    prime: Sys,
    first: Result<bool, AssertFail>,
    drain: TestResult,
    again: Sys,
    second: Result<bool, AssertFail>,
    got: TestResult,
) -> (r: TestResult)
    ensures
        r == guard(ok(sp, "sp"), guard(nested(nonblock_a), guard(nested(nonblock_b),
            guard(ok(ep, "epoll"), guard(nested(add), guard(ok(prime, "prime"),
            guard(nested(first), guard(that(first->Ok_0, "first in"), guard(nested(drain),
            guard(ok(again, "after eagain"), guard(nested(second),
            guard(that(second->Ok_0, "POLLIN missing after recv EAGAIN then peer write"),
            guard(nested(got), passed()))))))))))))),
{
    check_ok(sp, "sp")?;
    nonblock_a?;
    nonblock_b?;
    check_ok(ep, "epoll")?;
    add?;
    check_ok(prime, "prime")?;
    check(first?, "first in")?;
    drain?;
    check_ok(again, "after eagain")?;
    check(second?, "POLLIN missing after recv EAGAIN then peer write")?;
    got?;
    Ok(())
}

/// An edge-triggered EPOLLOUT is reported again once the peer drained a
/// socket that sends filled to `EAGAIN` (`filled`, see `send_fill_step`).
pub fn spawn_epoll_et_socket_out_rearm_after_eagain(
    sp: Sys,
    nonblock_a: TestResult,
    nonblock_b: TestResult,
    ep: Sys,
    add: TestResult,
    first: Result<bool, AssertFail>,
    filled: Result<bool, AssertFail>,
    drain: TestResult,
    second: Result<bool, AssertFail>,
) -> (r: TestResult)
    ensures
        r == guard(ok(sp, "sp"), guard(nested(nonblock_a), guard(nested(nonblock_b),
            guard(ok(ep, "epoll"), guard(nested(add), guard(nested(first),
            guard(that(first->Ok_0, "first out"), guard(nested(filled),
            guard(that(filled->Ok_0, "send never returned EAGAIN"), guard(nested(drain),
            guard(nested(second),
            guard(that(second->Ok_0, "POLLOUT missing after send EAGAIN then peer drain"), passed())))))))))))),
{
    check_ok(sp, "sp")?;
    nonblock_a?;
    nonblock_b?;
    check_ok(ep, "epoll")?;
    add?;
    check(first?, "first out")?;
    check(filled?, "send never returned EAGAIN")?;
    drain?;
    check(second?, "POLLOUT missing after send EAGAIN then peer drain")?;
    Ok(())
}

/// A listen bound to INADDR_ANY gets an ephemeral `port` and accepts a
/// loopback client that sends "hi".
pub fn spawn_listen_inaddr_any_accepts_loopback(
    srv: Sys,
    reuse: Sys,
    bind: Sys,
    listen: Sys,
    name: Sys,
    port: u16,
    cli: Sys,
    connect: Sys,
    acc: Sys,
    send: Sys,
    recv: SysVal,
    payload: &[u8],
) -> (r: TestResult)
    ensures
        r == guard(ok(srv, "socket"), guard(ok(reuse, "SO_REUSEADDR"),
            guard(ok(bind, "bind INADDR_ANY"), guard(ok(listen, "listen"),
            guard(ok(name, "getsockname"), guard(that(port != 0, "ephemeral port"),
            guard(ok(cli, "client"), guard(ok(connect, "connect loopback to INADDR_ANY"),
            guard(ok(acc, "accept4"), guard(ok(send, "send"), guard(ok(recv, "recv"),
            guard(that((recv->Ok_0) == 2, "len"),
            guard(that(payload@ == "hi".spec_bytes(), "payload"), passed()))))))))))))),
{
    check_ok(srv, "socket")?;
    check_ok(reuse, "SO_REUSEADDR")?;
    check_ok(bind, "bind INADDR_ANY")?;
    check_ok(listen, "listen")?;
    check_ok(name, "getsockname")?;
    check(port != 0, "ephemeral port")?;
    check_ok(cli, "client")?;
    check_ok(connect, "connect loopback to INADDR_ANY")?;
    check_ok(acc, "accept4")?;
    check_ok(send, "send")?;
    let n = check_ok(recv, "recv")?;
    check(n == 2, "len")?;
    check(bytes_eq(&payload, "hi".as_bytes()), "payload")?;
    Ok(())
}

/// With a worker blocked in `ppoll` (`saw`: it signalled it started, see
/// `worker_ready_step`), the parent's bind and listen succeed within 500 ms.
pub fn spawn_worker_ppoll_does_not_block_parent_listen(
    idle: Sys,
    ready: Sys,
    start: WorkerStart,
    nonblock: TestResult,
    saw: bool,
    t0: Result<Timespec, Errno>,
    srv: Sys,
    t1: Result<Timespec, Errno>,
    bind: Sys,
    listen: Sys,
) -> (r: TestResult)
    ensures
        r == guard(ok(idle, "idle pipe"), guard(ok(ready, "ready pipe"), after_start(start,
            guard(nested(nonblock), guard(that(saw, "worker never started"),
            guard(ok(t0, "clock before listen"), guard(ok(srv, "socket"),
            guard(ok(t1, "clock after listen"), guard(ok(bind, "bind blocked by worker ppoll"),
            guard(ok(listen, "listen blocked by worker ppoll"),
            guard(that(clamp64(spec_timespec_ms((t1->Ok_0)) - spec_timespec_ms((t0->Ok_0))) < 500, "parent bind+listen waited on worker ppoll"), passed()))))))))))),
{
    check_ok(idle, "idle pipe")?;
    check_ok(ready, "ready pipe")?;
    match start { WorkerStart::Running => {}, WorkerStart::Unavailable => return Ok(()), WorkerStart::Failed(n) => return Err(fail(n)) }
    nonblock?;
    check(saw, "worker never started")?;
    let a = check_ok(t0, "clock before listen")?;
    check_ok(srv, "socket")?;
    let b = check_ok(t1, "clock after listen")?;
    check_ok(bind, "bind blocked by worker ppoll")?;
    check_ok(listen, "listen blocked by worker ppoll")?;
    check(elapsed_ms(&a, &b) < 500, "parent bind+listen waited on worker ppoll")?;
    Ok(())
}

/// The parent side of starting the `--plugin-host-epoll-idle` helper.
pub fn spawn_theia_ipc_epoll_helper(sp: Sys, fork: Sys) -> (r: TestResult)
    ensures
        r == guard(ok(sp, "sp"), guard(ok(fork, "fork"), passed())),
{
    check_ok(sp, "sp")?;
    check_ok(fork, "fork")?;
    Ok(())
}

/// The parent side of starting the `--plugin-host-fd4` helper.
pub fn spawn_plugin_host_fd4_pipe(pipe: Sys, fork: Sys) -> (r: TestResult)
    ensures
        r == guard(ok(pipe, "fd4 pipe"), guard(ok(fork, "fork"), passed())),
{
    check_ok(pipe, "fd4 pipe")?;
    check_ok(fork, "fork")?;
    Ok(())
}

/// `read_exact_msg` of `want`: it fits the buffer, and its rounds (see
/// `read_exact_msg_after_poll`, `read_exact_msg_after_read` and
/// `read_exact_msg_timeout`) concluded `rounds`.
pub fn read_exact_msg(want: &[u8], rounds: TestResult) -> (r: TestResult)
    ensures
        r == guard(that(want@.len() <= 8, "read_exact_msg len"), guard(nested(rounds), passed())),
{
    check(want.len() <= 8, "read_exact_msg len")?;
    rounds?;
    Ok(())
}

/// The nested helper that epolls its inherited IPC goes idle and writes
/// IDLEOK, and is still alive.
pub fn spawn_theia_nested_ipc_epoll_goes_idle(
    exe: TestResult,
    spawn: TestResult,
    hello: TestResult,
    alive: Result<bool, AssertFail>,
) -> (r: TestResult)
    ensures
        r == guard(nested(exe), guard(nested(spawn), guard(nested(hello), guard(nested(alive),
            guard(that(alive->Ok_0, "nested idle helper already exited"), passed()))))),
{
    exe?;
    spawn?;
    hello?;
    check(alive?, "nested idle helper already exited")?;
    Ok(())
}

/// The nested helper writes FD4OK on the pipe it inherited on fd 4.
pub fn spawn_nested_fd4_pipe_survives(
    exe: TestResult,
    spawn: TestResult,
    fd4ok: TestResult,
    alive: Result<bool, AssertFail>,
) -> (r: TestResult)
    ensures
        r == guard(nested(exe), guard(nested(spawn), guard(nested(fd4ok), guard(nested(alive),
            guard(that(alive->Ok_0, "fd4 helper already exited"), passed()))))),
{
    exe?;
    spawn?;
    fd4ok?;
    check(alive?, "fd4 helper already exited")?;
    Ok(())
}

/// A worker blocked in `epoll_wait(-1)` wakes after the nest, the leftover
/// edge-triggered sockets go idle and the listen still accepts.
pub fn spawn_nested_worker_epoll_infinite_goes_idle(
    pipe: Sys,
    nonblock: TestResult,
    ep: Sys,
    add: TestResult,
    left: Sys,
    add_a: TestResult,
    add_b: TestResult,
    start: WorkerStart,
    prime: Sys,
    listen: TestResult,
    nest: TestResult,
    ticks_before: u32,
    leftover: bool,
    idle: Result<bool, AssertFail>,
    http: TestResult,
    woke: bool,
) -> (r: TestResult)
    ensures
        r == guard(ok(pipe, "pipe"), guard(nested(nonblock), guard(ok(ep, "epoll"),
            guard(nested(add), guard(ok(left, "leftover"), guard(nested(add_a),
            guard(nested(add_b), after_start(start, guard(ok(prime, "prime worker"),
            guard(nested(listen), guard(nested(nest),
            guard(that(ticks_before > 0, "worker never ran before nest"),
            guard(that(leftover, "leftover socketpair closed by nest"), guard(nested(idle),
            guard(that(idle->Ok_0, "epoll idle wait did not block after nest with worker in epoll_wait(-1)"),
            guard(nested(http),
            guard(that(woke, "worker epoll_wait(-1) did not wake after nest"), passed()))))))))))))))))),
{
    check_ok(pipe, "pipe")?;
    nonblock?;
    check_ok(ep, "epoll")?;
    add?;
    check_ok(left, "leftover")?;
    add_a?;
    add_b?;
    match start { WorkerStart::Running => {}, WorkerStart::Unavailable => return Ok(()), WorkerStart::Failed(n) => return Err(fail(n)) }
    check_ok(prime, "prime worker")?;
    listen?;
    nest?;
    check(ticks_before > 0, "worker never ran before nest")?;
    check(leftover, "leftover socketpair closed by nest")?;
    check(idle?, "epoll idle wait did not block after nest with worker in epoll_wait(-1)")?;
    http?;
    check(woke, "worker epoll_wait(-1) did not wake after nest")?;
    Ok(())
}

/// A second bind of the listening port fails with EADDRINUSE within 200 ms
/// while a worker sits in `ppoll`.
pub fn spawn_second_bind_eaddrinuse_is_fast(
    idle: Sys,
    ready: Sys,
    start: WorkerStart,
    nonblock: TestResult,
    saw: bool,
    srv: Sys,
    bind: Sys,
    listen: Sys,
    name: Sys,
    srv2: Sys,
    t0: Result<Timespec, Errno>,
    bind2: Sys,
    t1: Result<Timespec, Errno>,
) -> (r: TestResult)
    ensures
        r == guard(ok(idle, "idle pipe"), guard(ok(ready, "ready pipe"), after_start(start,
            guard(nested(nonblock), guard(that(saw, "worker never started"),
            guard(ok(srv, "listen socket"), guard(ok(bind, "first bind"),
            guard(ok(listen, "listen"), guard(ok(name, "getsockname"),
            guard(ok(srv2, "second socket"), guard(ok(t0, "clock before second bind"),
            guard(ok(t1, "clock after second bind"),
            guard(that(bind2 is Err, "second bind succeeded"),
            guard(that(bind2->Err_0.0 == EADDRINUSE, "second bind errno"),
            guard(that(clamp64(spec_timespec_ms((t1->Ok_0)) - spec_timespec_ms((t0->Ok_0))) < 200, "second bind blocked on worker ppoll"), passed()))))))))))))))),
{
    check_ok(idle, "idle pipe")?;
    check_ok(ready, "ready pipe")?;
    match start { WorkerStart::Running => {}, WorkerStart::Unavailable => return Ok(()), WorkerStart::Failed(n) => return Err(fail(n)) }
    nonblock?;
    check(saw, "worker never started")?;
    check_ok(srv, "listen socket")?;
    check_ok(bind, "first bind")?;
    check_ok(listen, "listen")?;
    check_ok(name, "getsockname")?;
    check_ok(srv2, "second socket")?;
    let a = check_ok(t0, "clock before second bind")?;
    let b = check_ok(t1, "clock after second bind")?;
    check(bind2.is_err(), "second bind succeeded")?;
    check(match bind2 { Err(e) => e.0 == EADDRINUSE, Ok(_) => false }, "second bind errno")?;
    check(elapsed_ms(&a, &b) < 200, "second bind blocked on worker ppoll")?;
    Ok(())
}

} // verus!
