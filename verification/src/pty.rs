//! Pseudo-terminals: the glibc `openpty` sequence (open `/dev/ptmx`,
//! `TIOCGPTN`, unlock, open `/dev/pts/N`) and shells driven over a master.

use vstd::prelude::*;
use vstd::string::StringSliceAdditionalSpecFns;
use crate::abi::{S_IFCHR, S_IFDIR, S_IFMT};
use crate::errno::{Errno, EIO, ENOENT};
use crate::harness::{
    AssertFail, Sys, SysVal, TestResult, check, check_err, check_ok, errs, fail, failure, guard,
    nested, ok, only_if, passed, that, ChildWait,
};
use crate::spawn_ipc::helper_setup_exit_code;
use crate::pipe_inherit::{contains, spec_contains, spec_has_root_entry, contains_root_entry};
use crate::wait_status::{spec_exit_code, spec_term_sig, wexitstatus, wifexited};

verus! {

/// The decimal digits of `n`, most significant first, in ASCII.
pub open spec fn decimal(n: nat) -> Seq<u8>
    decreases n,
{
    if n < 10 {
        seq![(48 + n) as u8]
    } else {
        decimal(n / 10).push((48 + n % 10) as u8)
    }
}

/// `/dev/pts/<n>`, without its NUL.
pub open spec fn pts_path(n: nat) -> Seq<u8> {
    "/dev/pts/".spec_bytes() + decimal(n)
}

/// Ten to the `k`.
pub open spec fn pow10(k: nat) -> nat
    decreases k,
{
    if k == 0 { 1 } else { 10 * pow10((k - 1) as nat) }
}

proof fn lemma_decimal_len(n: nat, k: nat)
    requires
        k >= 1,
        n < pow10(k),
    ensures
        decimal(n).len() <= k,
    decreases k,
{
    if n >= 10 {
        let p = pow10((k - 1) as nat);
        assert(n < 10 * p);
        assert(n / 10 < p) by (nonlinear_arith)
            requires
                n < 10 * p,
        ;
        if k == 1 {
            assert(p == 1);
        } else {
            lemma_decimal_len(n / 10, (k - 1) as nat);
        }
    }
}

/// `/dev/pts/<n>` with its NUL fits in 20 bytes.
pub proof fn lemma_pts_path_len(n: u32)
    ensures
        pts_path(n as nat).len() + 1 <= 20,
{
    reveal_strlit("/dev/pts/");
    vstd::string::is_ascii_spec_bytes("/dev/pts/");
    assert(pow10(10) == 10000000000) by {
        reveal_with_fuel(pow10, 11);
    }
    lemma_decimal_len(n as nat, 10);
}

/// The number that ASCII decimal digits `s` spell, most significant first.
pub open spec fn decimal_value(s: Seq<u8>) -> int
    decreases s.len(),
{
    if s.len() == 0 {
        0
    } else {
        10 * decimal_value(s.drop_last()) + (s.last() - 48)
    }
}

/// `decimal(n)` is a run of ASCII digits without a leading zero (but for
/// `n == 0`) that spells `n`.
pub proof fn lemma_decimal_spells(n: nat)
    ensures
        decimal(n).len() >= 1,
        forall|i: int| 0 <= i < decimal(n).len() ==> 48 <= #[trigger] decimal(n)[i] <= 57,
        n > 0 ==> decimal(n)[0] != 48,
        decimal_value(decimal(n)) == n,
    decreases n,
{
    if n >= 10 {
        lemma_decimal_spells(n / 10);
        let d = decimal(n / 10);
        assert(decimal(n).drop_last() =~= d);
        assert forall|i: int| 0 <= i < decimal(n).len() implies 48 <= #[trigger] decimal(n)[i] <= 57 by {
            if i < d.len() {
                assert(decimal(n)[i] == d[i]);
            }
        }
        assert(decimal(n)[0] == d[0]);
        assert(decimal(n).last() == (48 + n % 10) as u8);
        assert(decimal(n).last() - 48 == n % 10);
        assert(decimal_value(decimal(n)) == 10 * decimal_value(d) + (decimal(n).last() - 48));
        assert(decimal_value(decimal(n).drop_last()) == n / 10);
        assert(n == 10 * (n / 10) + n % 10);
    } else {
        assert(decimal(n).drop_last() =~= Seq::<u8>::empty());
        assert(decimal_value(decimal(n).drop_last()) == 0);
        assert(decimal(n).last() - 48 == n);
    }
}

/// Different pty indices have different paths.
pub proof fn lemma_pts_path_injective(a: nat, b: nat)
    requires
        a != b,
    ensures
        pts_path(a) != pts_path(b),
{
    lemma_decimal_spells(a);
    lemma_decimal_spells(b);
    let p = "/dev/pts/".spec_bytes();
    if pts_path(a) == pts_path(b) {
        assert(pts_path(a).subrange(p.len() as int, pts_path(a).len() as int) =~= decimal(a));
        assert(pts_path(b).subrange(p.len() as int, pts_path(b).len() as int) =~= decimal(b));
    }
}

/// The decimal digits of `n` (see `decimal`).
pub fn decimal_digits(n: u32) -> (v: Vec<u8>)
    ensures
        v@ == decimal(n as nat),
        v@.len() <= 10,
{
    proof {
        assert(pow10(10) == 10000000000) by {
            reveal_with_fuel(pow10, 11);
        }
        lemma_decimal_len(n as nat, 10);
    }
    let ghost dn = decimal(n as nat);
    let mut rev: Vec<u8> = Vec::new();
    let mut x = n;
    if x == 0 {
        rev.push(48u8);
    } else {
        while x > 0
            invariant
                dn == decimal(n as nat),
                dn.len() <= 10,
                rev@.len() <= dn.len(),
                x > 0 ==> decimal(x as nat) == dn.subrange(0, dn.len() - rev@.len()),
                x == 0 ==> rev@.len() == dn.len(),
                forall|j: int| 0 <= j < rev@.len() ==> rev@[j] == dn[dn.len() - 1 - j],
            decreases x,
        {
            let d = (x % 10) as u8;
            proof {
                let k = dn.len() - rev@.len();
                assert(decimal(x as nat)[decimal(x as nat).len() - 1] == 48 + x % 10);
                assert(dn[k - 1] == decimal(x as nat)[k - 1]);
                if x >= 10 {
                    assert(decimal((x / 10) as nat) =~= decimal(x as nat).subrange(0, k - 1));
                    assert(decimal((x / 10) as nat) =~= dn.subrange(0, k - 1));
                }
            }
            rev.push(48 + d);
            x = x / 10;
        }
    }
    let nd = rev.len();
    let mut v: Vec<u8> = Vec::new();
    let mut k: usize = 0;
    while k < nd
        invariant
            nd == rev@.len(),
            nd == dn.len(),
            k <= nd,
            forall|j: int| 0 <= j < rev@.len() ==> rev@[j] == dn[dn.len() - 1 - j],
            v@.len() == k,
            forall|j: int| 0 <= j < k ==> v@[j] == dn[j],
        decreases nd - k,
    {
        v.push(rev[nd - 1 - k]);
        k = k + 1;
    }
    assert(v@ =~= dn);
    v
}

/// Writes `prefix`, the decimal digits of `n` and a NUL at the start of
/// `out`, and gives the length written, NUL included.
pub fn put_numbered_name(out: &mut [u8], prefix: &[u8], n: u32) -> (len: usize)
    requires
        prefix@.len() + 11 <= old(out)@.len(),
    ensures
        len == prefix@.len() + decimal(n as nat).len() + 1,
        final(out)@.len() == old(out)@.len(),
        final(out)@.subrange(0, len as int) == (prefix@ + decimal(n as nat)).push(0),
        forall|j: int| len <= j < old(out)@.len() ==> final(out)@[j] == old(out)@[j],
{
    let digits = decimal_digits(n);
    let olen = out.len();
    let mut i: usize = 0;
    while i < prefix.len()
        invariant
            prefix@.len() + 11 <= out@.len(),
            out@.len() == old(out)@.len(),
            i <= prefix@.len(),
            forall|j: int| 0 <= j < i ==> out@[j] == prefix@[j],
            forall|j: int| i <= j < out@.len() ==> out@[j] == old(out)@[j],
        decreases prefix.len() - i,
    {
        out[i] = prefix[i];
        i = i + 1;
    }
    let start = prefix.len();
    let nd = digits.len();
    let mut k: usize = 0;
    while k < nd
        invariant
            prefix@.len() + 11 <= out@.len(),
            out@.len() == old(out)@.len(),
            out@.len() == olen,
            start == prefix@.len(),
            nd == digits@.len(),
            nd <= 10,
            digits@ == decimal(n as nat),
            k <= nd,
            forall|j: int| 0 <= j < start ==> out@[j] == prefix@[j],
            forall|j: int| 0 <= j < k ==> out@[start + j] == digits@[j],
            forall|j: int| start + k <= j < out@.len() ==> out@[j] == old(out)@[j],
        decreases nd - k,
    {
        out[start + k] = digits[k];
        k = k + 1;
    }
    out[start + nd] = 0;
    assert(out@.subrange(0, (start + nd + 1) as int) =~= (prefix@ + decimal(n as nat)).push(0));
    start + nd + 1
}

/// Writes `/dev/pts/<n>` and a NUL at the start of `out`, and gives the
/// length written, NUL included.
pub fn format_pts_path(n: u32, out: &mut [u8; 64]) -> (r: Result<usize, AssertFail>)
    ensures
        r == Ok::<usize, AssertFail>((pts_path(n as nat).len() + 1) as usize),
        final(out)@.subrange(0, pts_path(n as nat).len() as int + 1) == pts_path(n as nat).push(0),
        forall|j: int| pts_path(n as nat).len() + 1 <= j < 64 ==> final(out)@[j] == old(out)@[j],
{
    proof {
        reveal_strlit("/dev/pts/");
        vstd::string::is_ascii_spec_bytes("/dev/pts/");
        lemma_pts_path_len(n);
    }
    let prefix = "/dev/pts/".as_bytes();
    let len = put_numbered_name(out, prefix, n);
    if len > 64 {
        return Err(fail("pts path buf"));
    }
    Ok(len)
}

/// Whether the non-empty `needle` occurs in `hay`.
pub fn buf_contains(hay: &[u8], needle: &[u8]) -> (r: bool)
    ensures
        r == spec_contains(hay@, needle@),
{
    contains(hay, needle)
}

/// Whether a listing of `/` has begun to show: it names `etc`, `bin` or
/// `usr`.
pub open spec fn listing_started(b: Seq<u8>) -> bool {
    spec_contains(b, "etc".spec_bytes()) || spec_contains(b, "bin".spec_bytes())
        || spec_contains(b, "usr".spec_bytes())
}

/// What a drain of the master waits for.
pub enum Awaited {
    /// A listing of `/` (see `listing_started`).
    Listing,
    /// The text "ab".
    Ab,
}

/// Whether the bytes `b` read so far show what `want` waits for.
pub open spec fn seen(want: Awaited, b: Seq<u8>) -> bool {
    match want {
        Awaited::Listing => listing_started(b),
        Awaited::Ab => spec_contains(b, "ab".spec_bytes()),
    }
}

/// Whether the bytes `b` read so far show what `want` waits for.
pub fn awaited_seen(want: &Awaited, b: &[u8]) -> (r: bool)
    ensures
        r == seen(*want, b@),
{
    match want {
        Awaited::Listing => contains(b, "etc".as_bytes()) || contains(b, "bin".as_bytes())
            || contains(b, "usr".as_bytes()),
        Awaited::Ab => contains(b, "ab".as_bytes()),
    }
}

/// The state of a drain of the master: bytes collected, whether the child
/// was reaped, and the status word.
#[derive(Clone, Copy, Debug, PartialEq, Eq, Structural)]
pub struct PtyDrain {
    pub filled: usize,
    pub reaped: bool,
    pub status: i32,
}

/// The drain state after a round's `wait4(pid, WNOHANG)` (made only while
/// the child is not reaped) left `status` in the status word.
pub fn pty_drain_after_wait(st: PtyDrain, pid: i64, wait: SysVal, status: i32) -> (r: PtyDrain)
    ensures
        r == (if st.reaped { st } else if wait == Ok::<i64, Errno>(pid) {
            PtyDrain { filled: st.filled, reaped: true, status }
        } else {
            PtyDrain { filled: st.filled, reaped: false, status }
        }),
{
    if st.reaped {
        return st;
    }
    let reaped = match wait {
        Ok(p) => p == pid,
        Err(_) => false,
    };
    PtyDrain { filled: st.filled, reaped, status }
}

/// What a drain round does after its poll of the master.
pub enum PtyNext {
    /// Read into the rest of the buffer.
    Read,
    /// The child is gone and nothing is ready: read once more, then stop.
    FinalRead,
    /// Stop draining.
    Stop,
    /// Go on with the next round.
    Next,
}

/// After the poll of a `pty_drain_until` round (a failed poll counts as
/// nothing ready): read when something is ready and the buffer of `cap`
/// bytes has room; once the child is reaped and nothing is ready, read a
/// last time if there is room, then stop.
pub fn pty_drain_after_poll(st: &PtyDrain, poll: SysVal, cap: usize) -> (r: PtyNext)
    ensures
        r == (if poll is Ok && poll->Ok_0 > 0 {
            if st.filled < cap { PtyNext::Read } else { PtyNext::Next }
        } else if st.reaped {
            if st.filled < cap { PtyNext::FinalRead } else { PtyNext::Stop }
        } else {
            PtyNext::Next
        }),
{
    let ready = match poll {
        Ok(n) => n > 0,
        Err(_) => false,
    };
    if ready {
        if st.filled < cap { PtyNext::Read } else { PtyNext::Next }
    } else if st.reaped {
        if st.filled < cap { PtyNext::FinalRead } else { PtyNext::Stop }
    } else {
        PtyNext::Next
    }
}

/// How a drain read ended.
pub enum ReadEnd {
    /// Go on with the next round.
    Continue,
    /// End of stream, `EIO` (the slave side is gone): stop.
    Closed,
    /// What the drain waits for was seen: stop.
    Seen,
}

/// After a read of a drain round into `buf` (the whole buffer after the
/// read): the bytes add up; end of stream or `EIO` stop; once the bytes
/// read show what `want` waits for, stop; other errors go on.
pub fn pty_drain_after_read(st: PtyDrain, read: SysVal, buf: &[u8], want: &Awaited) -> (r: (
    PtyDrain,
    ReadEnd,
))
    requires
        st.filled < buf@.len(),
        read is Ok ==> 0 <= read->Ok_0 <= buf@.len() - st.filled,
    ensures
        r == (match read {
            Ok(n) => if n == 0 { (st, ReadEnd::Closed) } else {
                let f = (st.filled + n) as usize;
                (PtyDrain { filled: f, reaped: st.reaped, status: st.status }, if seen(
                    *want,
                    buf@.subrange(0, f as int),
                ) { ReadEnd::Seen } else { ReadEnd::Continue })
            },
            Err(e) => if e.0 == EIO { (st, ReadEnd::Closed) } else { (st, ReadEnd::Continue) },
        }),
{
    let len = buf.len();
    assert(buf@.len() == len);
    match read {
        Ok(n) => if n == 0 {
            (st, ReadEnd::Closed)
        } else {
            let f = st.filled + n as usize;
            let next = PtyDrain { filled: f, reaped: st.reaped, status: st.status };
            let got = vstd::slice::slice_subrange(buf, 0, f);
            if awaited_seen(want, got) {
                (next, ReadEnd::Seen)
            } else {
                (next, ReadEnd::Continue)
            }
        },
        Err(e) => if e.0 == EIO { (st, ReadEnd::Closed) } else { (st, ReadEnd::Continue) },
    }
}

/// The drain state after the last read made once the child was reaped:
/// its bytes, if any, add up.
pub fn pty_drain_final_read(st: PtyDrain, read: SysVal, cap: usize) -> (r: PtyDrain)
    requires
        st.filled < cap,
        read is Ok ==> 0 <= read->Ok_0 <= cap - st.filled,
    ensures
        r == (match read {
            Ok(n) => PtyDrain { filled: (st.filled + n) as usize, reaped: st.reaped, status: st.status },
            Err(_) => st,
        }),
{
    match read {
        Ok(n) => PtyDrain { filled: st.filled + n as usize, reaped: st.reaped, status: st.status },
        Err(_) => st,
    }
}

/// One step of the setup a shell child on a pty makes before its exec.
#[derive(Clone, Copy, Debug, PartialEq, Eq, Structural)]
pub enum TtySetup {
    /// `close(fd)`, its result not looked at.
    Close(i64),
    /// `setsid()`, its result not looked at.
    Setsid,
    /// `ioctl(fd, TIOCSCTTY, 0)`: the slave becomes the controlling
    /// terminal; its result not looked at.
    ControllingTty(i64),
    /// `dup2(from, to)`; the child exits 125 when it fails.
    Dup(i64, i64),
}

/// The terminal spawn path of the pty shell tests, in the child between
/// its fork and its exec: close the master, start a session, make the slave
/// its controlling terminal, put the slave on descriptors 0, 1 and 2, and
/// close the slave's own descriptor when it is above 2.
pub fn pty_child_setup(master: i64, slave: i64) -> (steps: Vec<TtySetup>)
    ensures
        steps@ == seq![TtySetup::Close(master), TtySetup::Setsid, TtySetup::ControllingTty(slave),
            TtySetup::Dup(slave, 0), TtySetup::Dup(slave, 1), TtySetup::Dup(slave, 2)] + (if slave > 2 {
            seq![TtySetup::Close(slave)]
        } else {
            Seq::<TtySetup>::empty()
        }),
{
    let mut v = vec![
        TtySetup::Close(master),
        TtySetup::Setsid,
        TtySetup::ControllingTty(slave),
        TtySetup::Dup(slave, 0),
        TtySetup::Dup(slave, 1),
        TtySetup::Dup(slave, 2),
    ];
    if slave > 2 {
        v.push(TtySetup::Close(slave));
    }
    proof {
        assert(v@ =~= seq![TtySetup::Close(master), TtySetup::Setsid, TtySetup::ControllingTty(slave),
            TtySetup::Dup(slave, 0), TtySetup::Dup(slave, 1), TtySetup::Dup(slave, 2)] + (if slave > 2 {
            seq![TtySetup::Close(slave)]
        } else {
            Seq::<TtySetup>::empty()
        }));
    }
    v
}

/// How many rounds `pty_drain_until` makes at most.
pub const PTY_DRAIN_ROUNDS: u32 = 80;

/// Whether `pty_drain_until` makes another round after its `i`th ended
/// going on (`PtyNext::Next`, or a read that ended `ReadEnd::Continue`):
/// while fewer than `PTY_DRAIN_ROUNDS` were made. After the last round,
/// a child not yet reaped gets the bounded final wait (`pty_final_wait`).
pub fn pty_drain_another_round(i: u32) -> (r: bool)
    requires
        i < PTY_DRAIN_ROUNDS,
    ensures
        r == (i + 1 < PTY_DRAIN_ROUNDS),
{
    i + 1 < PTY_DRAIN_ROUNDS
}

/// How many polls the final wait of `pty_drain_until` makes at most.
pub const PTY_FINAL_WAITS: u32 = 40;

/// The step of the bounded final wait of `pty_drain_until` after its `i`th
/// `wait4(pid, WNOHANG)`: reaped once it returned `pid`; otherwise sleep
/// 50 ms and poll again; after the last of `PTY_FINAL_WAITS` polls, sleep,
/// kill the child with signal 9, reap it, and the drain fails with "pty
/// child hung".
pub fn pty_final_wait(pid: i64, i: u32, wait: SysVal) -> (r: ChildWait<()>)
    requires
        i < PTY_FINAL_WAITS,
    ensures
        r == (if wait == Ok::<i64, Errno>(pid) { ChildWait::Done(Ok(())) } else if i + 1
            >= PTY_FINAL_WAITS {
            ChildWait::SleepThenKill(Err(failure("pty child hung")))
        } else {
            ChildWait::<()>::SleepThenPoll
        }),
{
    match wait {
        Ok(p) => if p == pid {
            return ChildWait::Done(Ok(()));
        },
        Err(_) => {},
    }
    if i + 1 >= PTY_FINAL_WAITS {
        ChildWait::SleepThenKill(Err(fail("pty child hung")))
    } else {
        ChildWait::SleepThenPoll
    }
}

/// How many read rounds `pty_interactive_ls_line` makes at most.
pub const PTY_LS_ROUNDS: u32 = 60;

/// Whether `pty_interactive_ls_line` makes another read round after its
/// `i`th ended going on: while fewer than `PTY_LS_ROUNDS` were made. After
/// the rounds it writes "exit\n" to the master and waits for the shell
/// (`pty_ls_final_wait`).
pub fn pty_ls_another_round(i: u32) -> (r: bool)
    requires
        i < PTY_LS_ROUNDS,
    ensures
        r == (i + 1 < PTY_LS_ROUNDS),
{
    i + 1 < PTY_LS_ROUNDS
}

/// The step of the final wait of `pty_interactive_ls_line` after its `i`th
/// `wait4(pid, WNOHANG)`: done once it returned `pid`; after each of the
/// first `PTY_FINAL_WAITS` polls, sleep 50 ms and poll again; after one
/// more poll, kill the shell with signal 9 and reap it. The wait never
/// fails the test; the master is closed after it.
pub fn pty_ls_final_wait(pid: i64, i: u32, wait: SysVal) -> (r: ChildWait<()>)
    requires
        i <= PTY_FINAL_WAITS,
    ensures
        r == (if wait == Ok::<i64, Errno>(pid) { ChildWait::Done(Ok(())) } else if i
            < PTY_FINAL_WAITS {
            ChildWait::<()>::SleepThenPoll
        } else {
            ChildWait::KillNow(Ok(()))
        }),
{
    match wait {
        Ok(p) => if p == pid {
            return ChildWait::Done(Ok(()));
        },
        Err(_) => {},
    }
    if i < PTY_FINAL_WAITS {
        ChildWait::SleepThenPoll
    } else {
        ChildWait::KillNow(Ok(()))
    }
}

/// After the poll of a `pty_shell_echo_via_master` round (a failed poll
/// counts as nothing ready): read when something is ready; once the child
/// is reaped and nothing is ready, read a last time, then stop.
pub fn pty_echo_after_poll(reaped: bool, poll: SysVal) -> (r: PtyNext)
    ensures
        r == (if poll is Ok && poll->Ok_0 > 0 { PtyNext::Read } else if reaped { PtyNext::FinalRead } else {
            PtyNext::Next
        }),
{
    let ready = match poll {
        Ok(n) => n > 0,
        Err(_) => false,
    };
    if ready {
        PtyNext::Read
    } else if reaped {
        PtyNext::FinalRead
    } else {
        PtyNext::Next
    }
}

/// After a read of a `pty_shell_echo_via_master` round into the buffer
/// `buf` with `filled` bytes before it: the new count, and whether to
/// stop: at end of stream or `EIO`, or once at least two bytes are in and
/// the first is `o` or eight are in.
pub fn pty_echo_after_read(filled: usize, read: SysVal, buf: &[u8]) -> (r: (usize, bool))
    requires
        filled <= buf@.len(),
        read is Ok ==> 0 <= read->Ok_0 <= buf@.len() - filled,
    ensures
        r == (match read {
            Ok(n) => if n == 0 { (filled, true) } else {
                let f = (filled + n) as usize;
                (f, f >= 2 && (buf@[0] == 111 || f >= 8))
            },
            Err(e) => (filled, e.0 == EIO),
        }),
{
    let len = buf.len();
    assert(buf@.len() == len);
    match read {
        Ok(n) => if n == 0 {
            (filled, true)
        } else {
            let f = filled + n as usize;
            (f, f >= 2 && (buf[0] == 111 || f >= 8))
        },
        Err(e) => (filled, e.0 == EIO),
    }
}

/// The glibc `openpty` sequence: open `/dev/ptmx`, read the pty number
/// (`TIOCGPTN`), unlock it, format `/dev/pts/N` (`format_pts_path`) and
/// open it.
pub fn openpty_pair(
    master: Sys,
    ptn: Sys,
    unlock: Sys,
    path: Result<usize, AssertFail>,
    slave: Sys,
) -> (r: TestResult)
    ensures
        r == guard(ok(master, "open /dev/ptmx"), guard(that(ptn is Ok, "TIOCGPTN"),
            guard(that(unlock is Ok, "TIOCSPTLCK unlock"), guard(nested(path),
            guard(that(slave is Ok, "open /dev/pts/N"), passed()))))),
{
    check_ok(master, "open /dev/ptmx")?;
    check(ptn.is_ok(), "TIOCGPTN")?;
    check(unlock.is_ok(), "TIOCSPTLCK unlock")?;
    path?;
    check(slave.is_ok(), "open /dev/pts/N")?;
    Ok(())
}

/// `/dev/ptmx` opens and is a character device (`fstat`: its `st_mode`).
pub fn pty_ptmx_open_chr(open: Sys, fstat: SysVal, close: Sys) -> (r: TestResult)
    ensures
        r == guard(ok(open, "open ptmx"), guard(that(fstat is Ok, "fstat ptmx"),
            guard(that((fstat->Ok_0) & S_IFMT == S_IFCHR, "ptmx not chr"),
            guard(ok(close, "close"), passed())))),
{
    check_ok(open, "open ptmx")?;
    check(fstat.is_ok(), "fstat ptmx")?;
    let m: i64 = match fstat { Ok(m) => m, Err(_) => 0 };
    check(m & S_IFMT == S_IFCHR, "ptmx not chr")?;
    check_ok(close, "close")?;
    Ok(())
}

/// `openpty` gives two distinct descriptors, the slave is a character
/// device and its `/dev/pts/N` path exists.
pub fn pty_openpty_pair(
    pair: TestResult,
    master: i32,
    slave: i32,
    fstat: SysVal,
    path: Result<usize, AssertFail>,
    access: Sys,
) -> (r: TestResult)
    ensures
        r == guard(nested(pair), guard(that(master >= 0, "master"),
            guard(that(slave >= 0, "slave"), guard(that(master != slave, "distinct fds"),
            guard(ok(fstat, "fstat slave"),
            guard(that((fstat->Ok_0) & S_IFMT == S_IFCHR, "slave not chr"), guard(nested(path),
            guard(ok(access, "pts path F_OK"), passed())))))))),
{
    pair?;
    check(master >= 0, "master")?;
    check(slave >= 0, "slave")?;
    check(master != slave, "distinct fds")?;
    let m = check_ok(fstat, "fstat slave")?;
    check(m & S_IFMT == S_IFCHR, "slave not chr")?;
    path?;
    check_ok(access, "pts path F_OK")?;
    Ok(())
}

/// `/dev/pts/999999`, with no live pty, does not exist.
pub fn pty_unused_index_enoent(open: Sys) -> (r: TestResult)
    ensures
        r == guard(errs(open, ENOENT, "unused pts"), passed()),
{
    check_err(open, ENOENT, "unused pts")?;
    Ok(())
}

/// The slave opens once the master unlocked it.
pub fn pty_slave_open_after_unlock(
    master: Sys,
    ptn: Sys,
    unlock: Sys,
    path: Result<usize, AssertFail>,
    slave: Sys,
) -> (r: TestResult)
    ensures
        r == guard(ok(master, "ptmx"), guard(ok(ptn, "TIOCGPTN"), guard(ok(unlock, "unlock"),
            guard(nested(path), guard(ok(slave, "open slave"), passed()))))),
{
    check_ok(master, "ptmx")?;
    check_ok(ptn, "TIOCGPTN")?;
    check_ok(unlock, "unlock")?;
    path?;
    check_ok(slave, "open slave")?;
    Ok(())
}

/// "ping\n" written on the slave is read on the master (`buf`: the
/// 64-byte read buffer).
pub fn pty_master_slave_byte_io(
    pair: TestResult,
    write: Sys,
    poll: SysVal,
    read: SysVal,
    buf: &[u8],
) -> (r: TestResult)
    requires
        buf@.len() == 64,
    ensures
        r == guard(nested(pair), guard(ok(write, "write slave"), guard(ok(poll, "poll master"),
            guard(that((poll->Ok_0) >= 1, "master readable"), guard(ok(read, "read master"),
            guard(that((read->Ok_0) >= 4, "short"), guard(that(buf@[0] == 112, "p"),
            guard(that(buf@[1] == 105, "i"), guard(that(buf@[2] == 110, "n"),
            guard(that(buf@[3] == 103, "g"), passed())))))))))),
{
    pair?;
    check_ok(write, "write slave")?;
    let n = check_ok(poll, "poll master")?;
    check(n >= 1, "master readable")?;
    let nr = check_ok(read, "read master")?;
    check(nr >= 4, "short")?;
    check(buf[0] == 112, "p")?;
    check(buf[1] == 105, "i")?;
    check(buf[2] == 110, "n")?;
    check(buf[3] == 103, "g")?;
    Ok(())
}

/// `sh -c 'echo ok'` on the slave exits 0 and "ok" shows on the master
/// (`out`: the bytes read, see `pty_echo_after_poll` and
/// `pty_echo_after_read`; when the drain did not reap the child,
/// `final_wait` is the blocking `wait4` that followed).
pub fn pty_shell_echo_via_master(
    access: Sys,
    pair: TestResult,
    fork: Sys,
    reaped: bool,
    final_wait: Sys,
    status: i32,
    out: &[u8],
) -> (r: TestResult)
    ensures
        r == guard(ok(access, "/bin/sh"), guard(nested(pair), guard(ok(fork, "fork"),
            guard(only_if(!reaped, ok(final_wait, "wait")),
            guard(that(spec_term_sig(status) == 0, "exited"),
            guard(that(spec_exit_code(status) == 0, "sh status"),
            guard(that(spec_contains(out@, "ok".spec_bytes()), "missing ok on master"), passed()))))))),
{
    check_ok(access, "/bin/sh")?;
    pair?;
    check_ok(fork, "fork")?;
    if !reaped {
        check_ok(final_wait, "wait")?;
    }
    check(wifexited(status), "exited")?;
    check(wexitstatus(status) == 0, "sh status")?;
    check(contains(out, "ok".as_bytes()), "missing ok on master")?;
    Ok(())
}

/// With a live pair, `/dev/pts` is a directory (`stat`: its `st_mode`) or,
/// when it does not exist, the slave's path does; and the slave reopens by
/// name.
pub fn pty_dev_pts_usable_with_live_pair(
    pair: TestResult,
    path: Result<usize, AssertFail>,
    stat: SysVal,
    access: Sys,
    reopen: Sys,
    close: Sys,
) -> (r: TestResult)
    ensures
        r == guard(nested(pair), guard(nested(path),
            guard(only_if(stat is Ok, that(stat->Ok_0 & S_IFMT == S_IFDIR, "/dev/pts not dir")),
            guard(only_if(stat is Err && stat->Err_0.0 == ENOENT, ok(access, "slave path")),
            guard(that(!(stat is Err && stat->Err_0.0 != ENOENT), "stat /dev/pts"),
            guard(ok(reopen, "reopen slave"), guard(ok(close, "close slave2"), passed()))))))),
{
    pair?;
    path?;
    if stat.is_ok() {
        check(match stat { Ok(m) => m & S_IFMT == S_IFDIR, Err(_) => true }, "/dev/pts not dir")?;
    }
    if match stat { Err(e) => e.0 == ENOENT, Ok(_) => false } {
        check_ok(access, "slave path")?;
    }
    check(match stat { Err(e) => e.0 == ENOENT, Ok(_) => true }, "stat /dev/pts")?;
    check_ok(reopen, "reopen slave")?;
    check_ok(close, "close slave2")?;
    Ok(())
}

/// Two pairs get distinct numbers and carry their own bytes (`a`, `b`: the
/// 16-byte read buffers).
pub fn pty_two_pairs_independent(
    pair1: TestResult,
    pair2: TestResult,
    n1: u32,
    n2: u32,
    w1: Sys,
    w2: Sys,
    r1: SysVal,
    r2: SysVal,
    a: &[u8],
    b: &[u8],
) -> (r: TestResult)
    requires
        a@.len() == 16,
        b@.len() == 16,
    ensures
        r == guard(nested(pair1), guard(nested(pair2), guard(that(n1 != n2, "distinct pty nums"),
            guard(ok(w1, "w1"), guard(ok(w2, "w2"), guard(ok(r1, "r1"), guard(ok(r2, "r2"),
            guard(that((r1->Ok_0) >= 1 && a@[0] == 65, "pair1"),
            guard(that((r2->Ok_0) >= 1 && b@[0] == 66, "pair2"), passed()))))))))),
{
    pair1?;
    pair2?;
    check(n1 != n2, "distinct pty nums")?;
    check_ok(w1, "w1")?;
    check_ok(w2, "w2")?;
    let na = check_ok(r1, "r1")?;
    let nb = check_ok(r2, "r2")?;
    check(na >= 1 && a[0] == 65, "pair1")?;
    check(nb >= 1 && b[0] == 66, "pair2")?;
    Ok(())
}

/// Reopening the slave path after closing the pair may fail or succeed.
pub fn pty_slave_gone_after_close_soft(
    pair: TestResult,
    path: Result<usize, AssertFail>,
) -> (r: TestResult)
    ensures
        r == guard(nested(pair), guard(nested(path), passed())),
{
    pair?;
    path?;
    Ok(())
}

/// The parent side of running a shell command on a fresh pair's slave (the
/// child's setup is `helper_setup_exit_code` over its `dup2` onto 0, 1, 2).
pub fn pty_spawn_shell_cmd(pair: TestResult, fork: Sys) -> (r: TestResult)
    ensures
        r == guard(nested(pair), guard(ok(fork, "fork"), passed())),
{
    pair?;
    check_ok(fork, "fork")?;
    Ok(())
}

/// `sh -c 'ls /'` on the pty exits 0 and lists a usual root entry
/// (`drain` and `listing`: the outcome and bytes of `pty_drain_until`
/// waiting for a listing).
pub fn pty_shell_ls_root(
    access: Sys,
    spawn: TestResult,
    drain: TestResult,
    status: i32,
    listing: &[u8],
) -> (r: TestResult)
    ensures
        r == guard(ok(access, "sh"), guard(nested(spawn), guard(nested(drain),
            guard(that(spec_term_sig(status) == 0, "exited"),
            guard(that(spec_exit_code(status) == 0, "ls status"),
            guard(that(spec_has_root_entry(listing@), "ls listing"), passed())))))),
{
    check_ok(access, "sh")?;
    spawn?;
    drain?;
    check(wifexited(status), "exited")?;
    check(wexitstatus(status) == 0, "ls status")?;
    check(contains_root_entry(listing), "ls listing")?;
    Ok(())
}

/// Where `/bin/bash` exists, `bash -c 'ls /'` on the pty exits 0 and lists a
/// usual root entry.
pub fn pty_bash_ls_root_soft(
    access: Sys,
    spawn: TestResult,
    drain: TestResult,
    status: i32,
    listing: &[u8],
) -> (r: TestResult)
    ensures
        r == guard(only_if(access is Ok, nested(spawn)),
            guard(only_if(access is Ok, nested(drain)),
            guard(only_if(access is Ok, that(spec_term_sig(status) == 0, "exited")),
            guard(only_if(access is Ok, that(spec_exit_code(status) == 0, "bash ls")),
            guard(only_if(access is Ok, that(spec_has_root_entry(listing@), "listing")), passed()))))),
{
    if access.is_ok() {
        spawn?;
        drain?;
        check(wifexited(status), "exited")?;
        check(wexitstatus(status) == 0, "bash ls")?;
        check(contains_root_entry(listing), "listing")?;
    }
    Ok(())
}

/// `sh -c 'printf ab | cat'` on the pty exits 0 and "ab" shows.
pub fn pty_shell_pipeline_on_pty(
    access: Sys,
    spawn: TestResult,
    drain: TestResult,
    status: i32,
    out: &[u8],
) -> (r: TestResult)
    ensures
        r == guard(ok(access, "sh"), guard(nested(spawn), guard(nested(drain),
            guard(that(spec_term_sig(status) == 0, "exited"),
            guard(that(spec_exit_code(status) == 0, "pipeline"),
            guard(that(spec_contains(out@, "ab".spec_bytes()), "pipeline out"), passed())))))),
{
    check_ok(access, "sh")?;
    spawn?;
    drain?;
    check(wifexited(status), "exited")?;
    check(wexitstatus(status) == 0, "pipeline")?;
    check(contains(out, "ab".as_bytes()), "pipeline out")?;
    Ok(())
}

/// A shell reading commands from the pty answers `ls /` with a listing
/// (`saw`: the drain, see `pty_drain_after_read` with `Awaited::Listing`,
/// ended on seeing it).
pub fn pty_interactive_ls_line(
    access: Sys,
    pair: TestResult,
    fork: Sys,
    write: Sys,
    saw: bool,
) -> (r: TestResult)
    ensures
        r == guard(ok(access, "sh"), guard(nested(pair), guard(ok(fork, "fork"),
            guard(ok(write, "write ls"), guard(that(saw, "interactive ls listing"), passed()))))),
{
    check_ok(access, "sh")?;
    pair?;
    check_ok(fork, "fork")?;
    check_ok(write, "write ls")?;
    check(saw, "interactive ls listing")?;
    Ok(())
}

} // verus!
