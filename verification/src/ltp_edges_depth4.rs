//! Fourth-depth coverage: dense families of small probes (locks, dup,
//! wait status, madvise, mprotect, seals, hole punching, timers, inotify,
//! splice/tee/vmsplice, eventfd, clocks, getrandom, writes, truncation,
//! sleeps) and single probes across the unprivileged syscall surface.
//!
//! Functions named after a family of tests are the verdict every test of
//! that family shares, with the family's parameter as an argument.

use vstd::prelude::*;
use crate::plan::Act;
use vstd::string::StringSliceAdditionalSpecFns;
use crate::abi::{S_IFIFO, S_IFMT, Timespec};
use crate::bytes::{bytes_eq, u64_from_ne_bytes};
use crate::errno::{
    Errno, EACCES, EAGAIN, EBADF, EBUSY, EEXIST, EINVAL, EMFILE, ENFILE, ENOENT, ENOMEM,
    ENOSPC, ENOSYS, ENOTSUP, ENOTTY, ENXIO, EOPNOTSUPP, EPERM, EWOULDBLOCK, EXDEV,
};
use crate::harness::{
    AssertFail, Sys, SysVal, TestResult, check, check_err, check_ok, errs, fail, fails_with,
    failed_with, guard, nested, ok, only_if, passed, that,
};
use crate::ltp_edges_depth3::drain_reads;
use crate::wait_status::{spec_exit_code, spec_term_sig, wexitstatus, wifexited};

verus! {

/// `STATX_TYPE`: `stx_mode`'s file type is filled in.
pub const STATX_TYPE: u32 = 0x1;

/// `STATX_SIZE`: `stx_size` is filled in.
pub const STATX_SIZE: u32 = 0x200;

/// Errors under which a probe counts as unsupported here rather than failed.
pub open spec fn is_soft(e: Errno) -> bool {
    e.0 == EINVAL || e.0 == ENOSYS || e.0 == EPERM || e.0 == EOPNOTSUPP || e.0 == ENOTSUP
        || e.0 == ENOMEM || e.0 == EBUSY || e.0 == EACCES || e.0 == ENOSPC || e.0 == ENOENT
        || e.0 == EXDEV
}

/// Whether `e` means the probed feature is unsupported rather than broken.
pub fn soft(e: Errno) -> (r: bool)
    ensures
        r == is_soft(e),
{
    e.0 == EINVAL || e.0 == ENOSYS || e.0 == EPERM || e.0 == EOPNOTSUPP || e.0 == ENOTSUP
        || e.0 == ENOMEM || e.0 == EBUSY || e.0 == EACCES || e.0 == ENOSPC || e.0 == ENOENT
        || e.0 == EXDEV
}

/// Exit code of the child of `d4_ptrace_traceme_soft`: 0 when
/// `PTRACE_TRACEME` succeeded or failed with `EPERM`, `ENOSYS` or `EINVAL`,
/// else 1.
pub fn traceme_child_exit_code(traceme: Sys) -> (code: i32)
    ensures
        code == (match traceme {
            Ok(_) => 0i32,
            Err(e) => if e.0 == EPERM || e.0 == ENOSYS || e.0 == EINVAL { 0i32 } else { 1i32 },
        }),
{
    match traceme {
        Ok(_) => 0,
        Err(e) => if e.0 == EPERM || e.0 == ENOSYS || e.0 == EINVAL { 0 } else { 1 },
    }
}

/// Verdict shared by the `d4_efd_*` tests: a semaphore eventfd created with
/// count `k` yields `k` reads of 1 (`reads` holds each read's outcome and
/// bytes); an unsupported eventfd passes.
pub fn efd_sem_drain(create: Sys, reads: &[(Sys, [u8; 8])], close: Sys) -> (r: TestResult)
    ensures
        r == guard(that(create is Ok || is_soft(create->Err_0), "efd"),
            guard(only_if(create is Ok, nested(drain_reads(reads@, guard(ok(close, "c"), passed())))),
            passed())),
{
    match create {
        Ok(_) => {},
        Err(e) => {
            if soft(e) {
                return Ok(());
            }
            return Err(fail("efd"));
        },
    }
    let ghost tail = guard(ok(close, "c"), passed());
    assert(reads@.skip(0) =~= reads@);
    let mut i: usize = 0;
    while i < reads.len()
        invariant
            i <= reads.len(),
            create is Ok,
            tail == guard(ok(close, "c"), passed()),
            drain_reads(reads@, tail) == drain_reads(reads@.skip(i as int), tail),
        decreases reads.len() - i,
    {
        let (read, bytes) = reads[i];
        assert(reads@.skip(i as int).drop_first() =~= reads@.skip(i + 1));
        assert(reads@.skip(i as int)[0] == reads@[i as int]);
        check_ok(read, "r")?;
        check(u64_from_ne_bytes(bytes) == 1, "1")?;
        i = i + 1;
    }
    assert(reads@.skip(i as int) =~= Seq::<(Sys, [u8; 8])>::empty());
    check_ok(close, "c")?;
    Ok(())
}

/// Verdict shared by the `d4_lk_*` tests: a read or write lock over some
/// byte range of a twenty-byte file is taken and released.
pub fn flock_byte(
    tmp: Sys,
    create: Sys,
    write: Sys,
    lock: Sys,
    unlock: Sys,
    close: Sys,
) -> (r: TestResult)
    ensures
        r == guard(ok(tmp, "t"), guard(ok(create, "c"), guard(ok(write, "w"), guard(ok(lock, "lk"),
            guard(ok(unlock, "un"), guard(ok(close, "c"), passed())))))),
{
    check_ok(tmp, "t")?;
    check_ok(create, "c")?;
    check_ok(write, "w")?;
    check_ok(lock, "lk")?;
    check_ok(unlock, "un")?;
    check_ok(close, "c")?;
    Ok(())
}

/// Verdict shared by the `d4_dupfd_*` tests: `F_DUPFD` with a minimum gives
/// a descriptor at or above it.
pub fn dupfd_min(
    min: i64,
    tmp: Sys,
    create: Sys,
    dup: SysVal,
    close_dup: Sys,
    close_fd: Sys,
) -> (r: TestResult)
    ensures
        r == guard(ok(tmp, "t"), guard(ok(create, "c"), guard(ok(dup, "dup"),
            guard(that((dup->Ok_0) >= min, "min"), guard(ok(close_dup, "cn"),
            guard(ok(close_fd, "cf"), passed())))))),
{
    check_ok(tmp, "t")?;
    check_ok(create, "c")?;
    let n = check_ok(dup, "dup")?;
    check(n >= min, "min")?;
    check_ok(close_dup, "cn")?;
    check_ok(close_fd, "cf")?;
    Ok(())
}

/// Verdict shared by the `d4_ex_*` tests: a child exiting with `code` is
/// reaped as exited with that code.
pub fn wait_exit(code: i32, fork: Sys, wait: Sys, status: i32) -> (r: TestResult)
    ensures
        r == guard(ok(fork, "f"), guard(ok(wait, "w"),
            guard(that(spec_term_sig(status) == 0, "ex"),
            guard(that(spec_exit_code(status) == code, "c"), passed())))),
{
    check_ok(fork, "f")?;
    check_ok(wait, "w")?;
    check(wifexited(status), "ex")?;
    check(wexitstatus(status) == code, "c")?;
    Ok(())
}

/// Verdict shared by the `d4_madv_*` tests: some `madvise` advice on an
/// anonymous page is accepted, or is unsupported.
pub fn madvise_advice(mmap: Sys, advise: Sys, munmap: Sys) -> (r: TestResult)
    ensures
        r == guard(ok(mmap, "mmap"), guard(that(advise is Ok || is_soft(advise->Err_0), "madvise"),
            guard(ok(munmap, "un"), passed()))),
{
    check_ok(mmap, "mmap")?;
    check(match advise { Ok(_) => true, Err(e) => soft(e) }, "madvise")?;
    check_ok(munmap, "un")?;
    Ok(())
}

/// Verdict shared by the `d4_mprot_*` tests: some protection combination on
/// an anonymous page is accepted, or is unsupported.
pub fn mprotect_combo(mmap: Sys, protect: Sys, munmap: Sys) -> (r: TestResult)
    ensures
        r == guard(ok(mmap, "mmap"),
            guard(that(protect is Ok || is_soft(protect->Err_0), "mprotect"),
            guard(ok(munmap, "un"), passed()))),
{
    check_ok(mmap, "mmap")?;
    check(match protect { Ok(_) => true, Err(e) => soft(e) }, "mprotect")?;
    check_ok(munmap, "un")?;
    Ok(())
}

/// Verdict shared by the `d4_seal_*` tests: a seal added to a sealable memfd
/// shows in `F_GET_SEALS`; an unsupported memfd or seal passes.
pub fn memfd_seal(seal: i64, create: Sys, add: Sys, get: SysVal, close: Sys) -> (r: TestResult)
    ensures
        r == guard(that(create is Ok || is_soft(create->Err_0), "memfd"),
            guard(only_if(create is Ok, that(add is Ok || is_soft(add->Err_0), "seal")),
            guard(only_if(create is Ok, only_if(add is Ok, ok(get, "get"))),
            guard(only_if(create is Ok, only_if(add is Ok, that((get->Ok_0) & seal != 0, "sealed"))),
            guard(only_if(create is Ok, ok(close, "c")), passed()))))),
{
    check(match create { Ok(_) => true, Err(e) => soft(e) }, "memfd")?;
    if create.is_ok() {
        check(match add { Ok(_) => true, Err(e) => soft(e) }, "seal")?;
        if add.is_ok() {
            let s = check_ok(get, "get")?;
            check(s & seal != 0, "sealed")?;
        }
        check_ok(close, "c")?;
    }
    Ok(())
}

/// Verdict shared by the `d4_punch_*` tests: punching a hole into an 8 KiB
/// file is accepted, or is unsupported.
pub fn falloc_punch(tmp: Sys, create: Sys, truncate: Sys, punch: Sys, close: Sys) -> (r: TestResult)
    ensures
        r == guard(ok(tmp, "t"), guard(ok(create, "c"), guard(ok(truncate, "tr"),
            guard(that(punch is Ok || is_soft(punch->Err_0), "punch"),
            guard(ok(close, "c"), passed()))))),
{
    check_ok(tmp, "t")?;
    check_ok(create, "c")?;
    check_ok(truncate, "tr")?;
    check(match punch { Ok(_) => true, Err(e) => soft(e) }, "punch")?;
    check_ok(close, "c")?;
    Ok(())
}

/// Verdict shared by the `d4_tfd_*` tests: a timerfd armed some
/// milliseconds ahead.
pub fn tfd_rel_ms(create: Sys, set: Sys, close: Sys) -> (r: TestResult)
    ensures
        r == guard(ok(create, "t"), guard(ok(set, "set"), guard(ok(close, "c"), passed()))),
{
    check_ok(create, "t")?;
    check_ok(set, "set")?;
    check_ok(close, "c")?;
    Ok(())
}

/// Verdict shared by the `d4_in_*` tests: a directory watch with some event
/// mask is added and removed.
pub fn in_mask(tmp: Sys, init: Sys, add: Sys, rm: Sys, close: Sys) -> (r: TestResult)
    ensures
        r == guard(ok(tmp, "t"), guard(ok(init, "i"), guard(ok(add, "a"), guard(ok(rm, "r"),
            guard(ok(close, "c"), passed()))))),
{
    check_ok(tmp, "t")?;
    check_ok(init, "i")?;
    check_ok(add, "a")?;
    check_ok(rm, "r")?;
    check_ok(close, "c")?;
    Ok(())
}

/// Verdict shared by the `d4_sp_*` tests: splicing `n` buffered bytes moves
/// all `n`, or is unsupported.
pub fn splice_n(n: usize, pipe1: Sys, pipe2: Sys, write: Sys, splice: SysVal) -> (r: TestResult)
    ensures
        r == guard(ok(pipe1, "p1"), guard(ok(pipe2, "p2"), guard(ok(write, "w"),
            guard(that(splice is Ok || is_soft(splice->Err_0), "splice"),
            guard(only_if(splice is Ok, that((splice->Ok_0) == n as i64, "n")), passed()))))),
{
    check_ok(pipe1, "p1")?;
    check_ok(pipe2, "p2")?;
    check_ok(write, "w")?;
    check(match splice { Ok(_) => true, Err(e) => soft(e) }, "splice")?;
    if let Ok(v) = splice {
        check(v == n as i64, "n")?;
    }
    Ok(())
}

/// Verdict shared by the `d4_tee_*` tests: `tee` of `n` buffered bytes
/// duplicates all `n`, or is unsupported.
pub fn tee_n(n: usize, pipe1: Sys, pipe2: Sys, write: Sys, tee: SysVal) -> (r: TestResult)
    ensures
        r == guard(ok(pipe1, "p1"), guard(ok(pipe2, "p2"), guard(ok(write, "w"),
            guard(that(tee is Ok || is_soft(tee->Err_0), "tee"),
            guard(only_if(tee is Ok, that((tee->Ok_0) == n as i64, "n")), passed()))))),
{
    check_ok(pipe1, "p1")?;
    check_ok(pipe2, "p2")?;
    check_ok(write, "w")?;
    check(match tee { Ok(_) => true, Err(e) => soft(e) }, "tee")?;
    if let Ok(v) = tee {
        check(v == n as i64, "n")?;
    }
    Ok(())
}

/// Verdict shared by the `d4_vs_*` tests: `vmsplice` of `n` bytes into a
/// pipe moves all `n`, or is unsupported.
pub fn vmsplice_n(n: usize, pipe: Sys, vmsplice: SysVal) -> (r: TestResult)
    ensures
        r == guard(ok(pipe, "p"),
            guard(that(vmsplice is Ok || is_soft(vmsplice->Err_0), "vmsplice"),
            guard(only_if(vmsplice is Ok, that((vmsplice->Ok_0) == n as i64, "n")), passed()))),
{
    check_ok(pipe, "p")?;
    check(match vmsplice { Ok(_) => true, Err(e) => soft(e) }, "vmsplice")?;
    if let Ok(v) = vmsplice {
        check(v == n as i64, "n")?;
    }
    Ok(())
}

/// A connected loopback TCP pair: listening server, client, accepted end
/// (their descriptors, in that order).
pub fn tcp_pair(
    socket: SysVal,
    reuse: Sys,
    bind: Sys,
    listen: Sys,
    name: Sys,
    client: SysVal,
    connect: Sys,
    accept: SysVal,
) -> (r: Result<(i64, i64, i64), AssertFail>)
    ensures
        r == guard(ok(socket, "s"), guard(ok(reuse, "re"), guard(ok(bind, "b"),
            guard(ok(listen, "l"), guard(ok(name, "n"), guard(ok(client, "c"),
            guard(ok(connect, "conn"),
            guard(ok(accept, "a"), Ok::<(i64, i64, i64), AssertFail>(((socket->Ok_0), (client->Ok_0), (accept->Ok_0))))))))))),
{
    let srv = check_ok(socket, "s")?;
    check_ok(reuse, "re")?;
    check_ok(bind, "b")?;
    check_ok(listen, "l")?;
    check_ok(name, "n")?;
    let cli = check_ok(client, "c")?;
    check_ok(connect, "conn")?;
    let acc = check_ok(accept, "a")?;
    Ok((srv, cli, acc))
}

/// Verdict shared by the `d4_clk_*` tests: a clock reads a non-negative
/// time, or is unsupported.
pub fn clock_get(get: Result<Timespec, Errno>) -> (r: TestResult)
    ensures
        r == guard(that(get is Ok || is_soft(get->Err_0), "clock"),
            guard(only_if(get is Ok, that((get->Ok_0).tv_sec >= 0, "sec")), passed())),
{
    check(match get { Ok(_) => true, Err(e) => soft(e) }, "clock")?;
    if let Ok(ts) = get {
        check(ts.tv_sec >= 0, "sec")?;
    }
    Ok(())
}

/// Verdict shared by the `d4_cres_*` tests: a clock has a nonzero
/// resolution, or is unsupported.
pub fn clock_res(res: Result<Timespec, Errno>) -> (r: TestResult)
    ensures
        r == guard(that(res is Ok || is_soft(res->Err_0), "getres"),
            guard(only_if(res is Ok, that((res->Ok_0).tv_nsec > 0 || (res->Ok_0).tv_sec > 0, "res")), passed())),
{
    check(match res { Ok(_) => true, Err(e) => soft(e) }, "getres")?;
    if let Ok(ts) = res {
        check(ts.tv_nsec > 0 || ts.tv_sec > 0, "res")?;
    }
    Ok(())
}

/// Verdict shared by the `d4_gr_*` tests: `getrandom` fills all `n` bytes.
pub fn getrandom_n(n: usize, get: SysVal) -> (r: TestResult)
    ensures
        r == guard(ok(get, "gr"), guard(that((get->Ok_0) == n as i64, "n"), passed())),
{
    let got = check_ok(get, "gr")?;
    check(got == n as i64, "n")?;
    Ok(())
}

/// Verdict shared by the `d4_wr_*` tests: a write of `n` bytes to a new file
/// writes all `n`.
pub fn write_n(n: usize, tmp: Sys, create: Sys, write: SysVal, close: Sys) -> (r: TestResult)
    ensures
        r == guard(ok(tmp, "t"), guard(ok(create, "c"), guard(ok(write, "w"),
            guard(that((write->Ok_0) == n as i64, "n"), guard(ok(close, "c"), passed()))))),
{
    check_ok(tmp, "t")?;
    check_ok(create, "c")?;
    let got = check_ok(write, "w")?;
    check(got == n as i64, "n")?;
    check_ok(close, "c")?;
    Ok(())
}

/// Verdict shared by the `d4_tr_*` tests: `truncate` of a 16-byte file to
/// `size` leaves `st_size == size`.
pub fn trunc_path(
    size: i64,
    tmp: Sys,
    setup: TestResult,
    write: TestResult,
    truncate: Sys,
    stat: SysVal,
) -> (r: TestResult)
    ensures
        r == guard(ok(tmp, "t"), guard(nested(setup), guard(nested(write),
            guard(ok(truncate, "tr"), guard(ok(stat, "st"),
            guard(that((stat->Ok_0) == size, "sz"), passed())))))),
{
    check_ok(tmp, "t")?;
    setup?;
    write?;
    check_ok(truncate, "tr")?;
    let sz = check_ok(stat, "st")?;
    check(sz == size, "sz")?;
    Ok(())
}

/// Verdict shared by the `d4_ns_*` tests: a short `nanosleep` completes.
pub fn nanosleep_ns(sleep: Sys) -> (r: TestResult)
    ensures
        r == guard(ok(sleep, "ns"), passed()),
{
    check_ok(sleep, "ns")?;
    Ok(())
}

/// `alarm(0)` succeeds, or is unsupported.
pub fn d4_alarm_soft(alarm: Sys) -> (r: TestResult)
    ensures
        r == guard(that(alarm is Ok || is_soft(alarm->Err_0), "alarm"), passed()),
{
    check(match alarm { Ok(_) => true, Err(e) => soft(e) }, "alarm")?;
    Ok(())
}

/// `alarm(60)` arms (and is then cancelled), or is unsupported.
pub fn d4_alarm_set_cancel_soft(alarm: Sys) -> (r: TestResult)
    ensures
        r == guard(that(alarm is Ok || is_soft(alarm->Err_0), "alarm set"), passed()),
{
    check(match alarm { Ok(_) => true, Err(e) => soft(e) }, "alarm set")?;
    Ok(())
}

/// `setitimer(ITIMER_REAL)` with a 1000 us value arms (and is then
/// disarmed), or is unsupported.
pub fn d4_ualarm_soft_via_setitimer(set: Sys) -> (r: TestResult)
    ensures
        r == guard(that(set is Ok || is_soft(set->Err_0), "ualarm/setitimer"), passed()),
{
    check(match set { Ok(_) => true, Err(e) => soft(e) }, "ualarm/setitimer")?;
    Ok(())
}

/// `brk(0)` reports a positive program break.
pub fn d4_brk_query(brk: SysVal) -> (r: TestResult)
    ensures
        r == guard(ok(brk, "brk0"), guard(that((brk->Ok_0) > 0, "cur"), passed())),
{
    let cur = check_ok(brk, "brk0")?;
    check(cur > 0, "cur")?;
    Ok(())
}

/// Growing the break by a page yields a break at or above the old one, or
/// is unsupported.
pub fn d4_brk_grow_restore(query: SysVal, grow: SysVal) -> (r: TestResult)
    ensures
        r == guard(ok(query, "cur"), guard(that(grow is Ok || is_soft(grow->Err_0), "brk grow"),
            guard(only_if(grow is Ok, that((grow->Ok_0) >= (query->Ok_0), "grew")), passed()))),
{
    let cur = check_ok(query, "cur")?;
    check(match grow { Ok(_) => true, Err(e) => soft(e) }, "brk grow")?;
    if let Ok(n) = grow {
        check(n >= cur, "grew")?;
    }
    Ok(())
}

/// An unprivileged tmpfs mount is refused (or tolerated when it succeeds).
pub fn d4_mount_soft_eperm(tmp: Sys, setup: TestResult, mkdir: Sys, mount: Sys) -> (r: TestResult)
    ensures
        r == guard(ok(tmp, "t"), guard(nested(setup), guard(ok(mkdir, "mkdir"),
            guard(that(mount is Ok || fails_with(mount, seq![EPERM, ENOSYS, EACCES]) || is_soft(mount->Err_0), "mount soft"), passed())))),
{
    check_ok(tmp, "t")?;
    setup?;
    check_ok(mkdir, "mkdir")?;
    check(match mount { Ok(_) => true, Err(e) => e.0 == EPERM || e.0 == ENOSYS || e.0 == EACCES || soft(e) }, "mount soft")?;
    Ok(())
}

/// `PTRACE_ATTACH` to self is refused (or tolerated when it succeeds).
pub fn d4_ptrace_attach_self_soft(attach: Sys) -> (r: TestResult)
    ensures
        r ==
            guard(that(attach is Ok || fails_with(attach, seq![EPERM, EINVAL, ENOSYS]) || is_soft(attach->Err_0), "ptrace"), passed()),
{
    check(match attach { Ok(_) => true, Err(e) => e.0 == EPERM || e.0 == EINVAL || e.0 == ENOSYS || soft(e) }, "ptrace")?;
    Ok(())
}

/// A child's `PTRACE_TRACEME` succeeds or is refused as unsupported (the
/// child exits 0, see `traceme_child_exit_code`).
pub fn d4_ptrace_traceme_soft(fork: Sys, wait: Sys, status: i32) -> (r: TestResult)
    ensures
        r == guard(ok(fork, "f"), guard(ok(wait, "w"),
            guard(that(spec_exit_code(status) == 0, "ok"), passed()))),
{
    check_ok(fork, "f")?;
    check_ok(wait, "w")?;
    check(wexitstatus(status) == 0, "ok")?;
    Ok(())
}

/// `capget` with the version 3 header.
pub fn d4_capget_v3(capget: Sys) -> (r: TestResult)
    ensures
        r == guard(ok(capget, "capget"), passed()),
{
    check_ok(capget, "capget")?;
    Ok(())
}

/// Two queries of the persona agree.
pub fn d4_personality_query(p: SysVal, p2: SysVal) -> (r: TestResult)
    ensures
        r == guard(ok(p, "p"), guard(ok(p2, "p2"),
            guard(that((p->Ok_0) == (p2->Ok_0), "stable"), passed()))),
{
    let a = check_ok(p, "p")?;
    let b = check_ok(p2, "p2")?;
    check(a == b, "stable")?;
    Ok(())
}

/// `uname` reports a non-empty system name.
pub fn d4_uname_linux(uname: Sys, sysname0: u8) -> (r: TestResult)
    ensures
        r == guard(ok(uname, "u"), guard(that(sysname0 != 0, "sys"), passed())),
{
    check_ok(uname, "u")?;
    check(sysname0 != 0, "sys")?;
    Ok(())
}

/// `sysinfo` reports a non-negative uptime.
pub fn d4_sysinfo_ok(sysinfo: SysVal) -> (r: TestResult)
    ensures
        r == guard(ok(sysinfo, "si"), guard(that((sysinfo->Ok_0) >= 0, "up"), passed())),
{
    let up = check_ok(sysinfo, "si")?;
    check(up >= 0, "up")?;
    Ok(())
}

/// `times` succeeds.
pub fn d4_times_ok(times: Sys) -> (r: TestResult)
    ensures
        r == guard(ok(times, "times"), passed()),
{
    check_ok(times, "times")?;
    Ok(())
}

/// `sched_yield` succeeds.
pub fn d4_sched_yield(yield_: Sys) -> (r: TestResult)
    ensures
        r == guard(ok(yield_, "y"), passed()),
{
    check_ok(yield_, "y")?;
    Ok(())
}

/// `sched_getscheduler(0)` reports a policy.
pub fn d4_sched_getscheduler(get: SysVal) -> (r: TestResult)
    ensures
        r == guard(ok(get, "g"), guard(that((get->Ok_0) >= 0, "pol"), passed())),
{
    let pol = check_ok(get, "g")?;
    check(pol >= 0, "pol")?;
    Ok(())
}

/// `sched_getaffinity(0)` fills a mask, or is unsupported.
pub fn d4_sched_getaffinity(get: Sys) -> (r: TestResult)
    ensures
        r == guard(that(get is Ok || is_soft(get->Err_0), "affinity"), passed()),
{
    check(match get { Ok(_) => true, Err(e) => soft(e) }, "affinity")?;
    Ok(())
}

/// `PR_GET_NAME` copies the thread name.
pub fn d4_prctl_get_name(get: Sys) -> (r: TestResult)
    ensures
        r == guard(ok(get, "name"), passed()),
{
    check_ok(get, "name")?;
    Ok(())
}

/// `PR_GET_DUMPABLE` succeeds, or is unsupported.
pub fn d4_prctl_dumpable_get(get: Sys) -> (r: TestResult)
    ensures
        r == guard(that(get is Ok || is_soft(get->Err_0), "dumpable"), passed()),
{
    check(match get { Ok(_) => true, Err(e) => soft(e) }, "dumpable")?;
    Ok(())
}

/// `sync` succeeds.
pub fn d4_sync_ok(sync: Sys) -> (r: TestResult)
    ensures
        r == guard(ok(sync, "sync"), passed()),
{
    check_ok(sync, "sync")?;
    Ok(())
}

/// `syncfs` on a file succeeds, or is unsupported.
pub fn d4_syncfs_ok(tmp: Sys, create: Sys, syncfs: Sys, close: Sys) -> (r: TestResult)
    ensures
        r == guard(ok(tmp, "t"), guard(ok(create, "c"),
            guard(that(syncfs is Ok || is_soft(syncfs->Err_0), "syncfs"),
            guard(ok(close, "c"), passed())))),
{
    check_ok(tmp, "t")?;
    check_ok(create, "c")?;
    check(match syncfs { Ok(_) => true, Err(e) => soft(e) }, "syncfs")?;
    check_ok(close, "c")?;
    Ok(())
}

/// Setting `CLOCK_REALTIME` is refused (or tolerated when it succeeds).
pub fn d4_clock_settime_eperm(now: Sys, settime: Sys) -> (r: TestResult)
    ensures
        r == guard(ok(now, "now"),
            guard(that(settime is Ok || fails_with(settime, seq![EPERM, EACCES, EINVAL]) || is_soft(settime->Err_0), "settime"), passed())),
{
    check_ok(now, "now")?;
    check(match settime { Ok(_) => true, Err(e) => e.0 == EPERM || e.0 == EACCES || e.0 == EINVAL || soft(e) }, "settime")?;
    Ok(())
}

/// `pipe2(O_CLOEXEC)` creates a pipe.
pub fn d4_pipe2_cloexec(pipe: Sys, close_r: Sys, close_w: Sys) -> (r: TestResult)
    ensures
        r == guard(ok(pipe, "p"), guard(ok(close_r, "cr"), guard(ok(close_w, "cw"), passed()))),
{
    check_ok(pipe, "p")?;
    check_ok(close_r, "cr")?;
    check_ok(close_w, "cw")?;
    Ok(())
}

/// `pipe2(O_NONBLOCK)` creates a pipe.
pub fn d4_pipe2_nonblock(pipe: Sys, close_r: Sys, close_w: Sys) -> (r: TestResult)
    ensures
        r == guard(ok(pipe, "p"), guard(ok(close_r, "cr"), guard(ok(close_w, "cw"), passed()))),
{
    check_ok(pipe, "p")?;
    check_ok(close_r, "cr")?;
    check_ok(close_w, "cw")?;
    Ok(())
}

/// Two bytes written on one end of a Unix stream pair are read on the
/// other.
pub fn d4_socketpair_unix_stream(
    pair: Sys,
    write: Sys,
    read: SysVal,
    close_a: Sys,
    close_b: Sys,
) -> (r: TestResult)
    ensures
        r == guard(ok(pair, "sp"), guard(ok(write, "w"), guard(ok(read, "r"),
            guard(that((read->Ok_0) == 2, "n"), guard(ok(close_a, "ca"),
            guard(ok(close_b, "cb"), passed())))))),
{
    check_ok(pair, "sp")?;
    check_ok(write, "w")?;
    let n = check_ok(read, "r")?;
    check(n == 2, "n")?;
    check_ok(close_a, "ca")?;
    check_ok(close_b, "cb")?;
    Ok(())
}

/// A Unix datagram pair is created.
pub fn d4_socketpair_unix_dgram(pair: Sys, close_a: Sys, close_b: Sys) -> (r: TestResult)
    ensures
        r == guard(ok(pair, "sp"), guard(ok(close_a, "ca"), guard(ok(close_b, "cb"), passed()))),
{
    check_ok(pair, "sp")?;
    check_ok(close_a, "ca")?;
    check_ok(close_b, "cb")?;
    Ok(())
}

/// A byte written by the client of a loopback TCP pair is read by the
/// accepted end.
pub fn d4_bind_listen_accept4_connect(
    pair: TestResult,
    write: Sys,
    read: SysVal,
    close_acc: Sys,
    close_cli: Sys,
    close_srv: Sys,
) -> (r: TestResult)
    ensures
        r == guard(nested(pair), guard(ok(write, "w"), guard(ok(read, "r"),
            guard(that((read->Ok_0) == 1, "n"), guard(ok(close_acc, "a"), guard(ok(close_cli, "c"),
            guard(ok(close_srv, "s"), passed()))))))),
{
    pair?;
    check_ok(write, "w")?;
    let n = check_ok(read, "r")?;
    check(n == 1, "n")?;
    check_ok(close_acc, "a")?;
    check_ok(close_cli, "c")?;
    check_ok(close_srv, "s")?;
    Ok(())
}

/// `listen` with backlog 1 on a bound TCP socket.
pub fn d4_listen_backlog_1(socket: Sys, bind: Sys, listen: Sys, close: Sys) -> (r: TestResult)
    ensures
        r == guard(ok(socket, "s"), guard(ok(bind, "b"), guard(ok(listen, "l"),
            guard(ok(close, "c"), passed())))),
{
    check_ok(socket, "s")?;
    check_ok(bind, "b")?;
    check_ok(listen, "l")?;
    check_ok(close, "c")?;
    Ok(())
}

/// `listen` with backlog 128 on a bound TCP socket.
pub fn d4_listen_backlog_128(socket: Sys, bind: Sys, listen: Sys, close: Sys) -> (r: TestResult)
    ensures
        r == guard(ok(socket, "s"), guard(ok(bind, "b"), guard(ok(listen, "l"),
            guard(ok(close, "c"), passed())))),
{
    check_ok(socket, "s")?;
    check_ok(bind, "b")?;
    check_ok(listen, "l")?;
    check_ok(close, "c")?;
    Ok(())
}

/// `accept4(SOCK_NONBLOCK)` returns the connected end of a loopback TCP
/// connection.
pub fn d4_accept4_nonblock(
    socket: Sys,
    reuse: Sys,
    bind: Sys,
    listen: Sys,
    name: Sys,
    client: Sys,
    connect: Sys,
    accept: Sys,
    close_acc: Sys,
    close_cli: Sys,
    close_srv: Sys,
) -> (r: TestResult)
    ensures
        r == guard(ok(socket, "s"), guard(ok(reuse, "re"), guard(ok(bind, "b"),
            guard(ok(listen, "l"), guard(ok(name, "n"), guard(ok(client, "c"),
            guard(ok(connect, "conn"), guard(ok(accept, "a"), guard(ok(close_acc, "a"),
            guard(ok(close_cli, "c"), guard(ok(close_srv, "s"), passed()))))))))))),
{
    check_ok(socket, "s")?;
    check_ok(reuse, "re")?;
    check_ok(bind, "b")?;
    check_ok(listen, "l")?;
    check_ok(name, "n")?;
    check_ok(client, "c")?;
    check_ok(connect, "conn")?;
    check_ok(accept, "a")?;
    check_ok(close_acc, "a")?;
    check_ok(close_cli, "c")?;
    check_ok(close_srv, "s")?;
    Ok(())
}

/// `epoll_wait` reports a pipe read end ready after a write.
pub fn d4_epoll_pipe_in(
    pipe: Sys,
    create: Sys,
    add: Sys,
    write: Sys,
    wait: SysVal,
    del: Sys,
    close_ep: Sys,
    close_r: Sys,
    close_w: Sys,
) -> (r: TestResult)
    ensures
        r == guard(ok(pipe, "pipe"), guard(ok(create, "ep"), guard(ok(add, "add"),
            guard(ok(write, "w"), guard(ok(wait, "wait"), guard(that((wait->Ok_0) >= 1, "rdy"),
            guard(ok(del, "del"), guard(ok(close_ep, "cep"), guard(ok(close_r, "cr"),
            guard(ok(close_w, "cw"), passed())))))))))),
{
    check_ok(pipe, "pipe")?;
    check_ok(create, "ep")?;
    check_ok(add, "add")?;
    check_ok(write, "w")?;
    let n = check_ok(wait, "wait")?;
    check(n >= 1, "rdy")?;
    check_ok(del, "del")?;
    check_ok(close_ep, "cep")?;
    check_ok(close_r, "cr")?;
    check_ok(close_w, "cw")?;
    Ok(())
}

/// An edge-triggered registration reports a pipe read end ready after a
/// write.
pub fn d4_epoll_et(
    pipe: Sys,
    create: Sys,
    add: Sys,
    write: Sys,
    wait: SysVal,
    close_ep: Sys,
    close_r: Sys,
    close_w: Sys,
) -> (r: TestResult)
    ensures
        r == guard(ok(pipe, "pipe"), guard(ok(create, "ep"), guard(ok(add, "add"),
            guard(ok(write, "w"), guard(ok(wait, "w"), guard(that((wait->Ok_0) >= 1, "rdy"),
            guard(ok(close_ep, "cep"), guard(ok(close_r, "cr"),
            guard(ok(close_w, "cw"), passed()))))))))),
{
    check_ok(pipe, "pipe")?;
    check_ok(create, "ep")?;
    check_ok(add, "add")?;
    check_ok(write, "w")?;
    let n = check_ok(wait, "w")?;
    check(n >= 1, "rdy")?;
    check_ok(close_ep, "cep")?;
    check_ok(close_r, "cr")?;
    check_ok(close_w, "cw")?;
    Ok(())
}

/// `poll` reports a pipe holding a byte ready.
pub fn d4_poll_ready(
    pipe: Sys,
    write: Sys,
    poll: SysVal,
    close_r: Sys,
    close_w: Sys,
) -> (r: TestResult)
    ensures
        r == guard(ok(pipe, "p"), guard(ok(write, "w"), guard(ok(poll, "p"),
            guard(that((poll->Ok_0) >= 1, "rdy"), guard(ok(close_r, "cr"),
            guard(ok(close_w, "cw"), passed())))))),
{
    check_ok(pipe, "p")?;
    check_ok(write, "w")?;
    let n = check_ok(poll, "p")?;
    check(n >= 1, "rdy")?;
    check_ok(close_r, "cr")?;
    check_ok(close_w, "cw")?;
    Ok(())
}

/// `ppoll` with a zero timeout on an idle pipe reports nothing ready, or is
/// unsupported.
pub fn d4_ppoll_zero(pipe: Sys, ppoll: SysVal, close_r: Sys, close_w: Sys) -> (r: TestResult)
    ensures
        r == guard(ok(pipe, "p"), guard(that(ppoll is Ok || is_soft(ppoll->Err_0), "ppoll"),
            guard(only_if(ppoll is Ok, that((ppoll->Ok_0) == 0, "none")), guard(ok(close_r, "cr"),
            guard(ok(close_w, "cw"), passed()))))),
{
    check_ok(pipe, "p")?;
    check(match ppoll { Ok(_) => true, Err(e) => soft(e) }, "ppoll")?;
    if let Ok(n) = ppoll {
        check(n == 0, "none")?;
    }
    check_ok(close_r, "cr")?;
    check_ok(close_w, "cw")?;
    Ok(())
}

/// `pselect6` with a zero timeout on an idle pipe end returns 0, or is
/// unsupported.
pub fn d4_pselect_zero(pipe: Sys, pselect: SysVal, close_r: Sys, close_w: Sys) -> (r: TestResult)
    ensures
        r == guard(ok(pipe, "p"),
            guard(that(pselect == Ok::<i64, Errno>(0) || (pselect is Err && is_soft(pselect->Err_0)), "pselect"),
            guard(ok(close_r, "cr"), guard(ok(close_w, "cw"), passed())))),
{
    check_ok(pipe, "p")?;
    check(match pselect { Ok(n) => n == 0, Err(e) => soft(e) }, "pselect")?;
    check_ok(close_r, "cr")?;
    check_ok(close_w, "cw")?;
    Ok(())
}

/// The calls `d4_pselect_zero` makes besides its checks: when `pselect6`
/// neither returned 0 nor failed softly, it closes both pipe ends before
/// the test fails.
pub fn pselect_cleanup(r: i64, w: i64, pselect: SysVal) -> (acts: Vec<Act>)
    ensures
        acts@ == (if !(pselect == Ok::<i64, Errno>(0) || (pselect is Err && is_soft(pselect->Err_0))) { seq![Act::Close(r), Act::Close(w)] } else { Seq::<Act>::empty() }),
{
    if match pselect { Ok(n) => n != 0, Err(e) => !soft(e) } {
        vec![Act::Close(r), Act::Close(w)]
    } else {
        vec![]
    }
}

/// `TCGETS` on a regular file fails with `ENOTTY` or `EINVAL`.
pub fn d4_ioctl_enotty(tmp: Sys, create: Sys, ioctl: SysVal, close: Sys) -> (r: TestResult)
    ensures
        r == guard(ok(tmp, "t"), guard(ok(create, "c"),
            guard(that(fails_with(ioctl, seq![ENOTTY, EINVAL]), "ioctl"),
            guard(ok(close, "c"), passed())))),
{
    check_ok(tmp, "t")?;
    check_ok(create, "c")?;
    check(failed_with(&ioctl, &[ENOTTY, EINVAL]), "ioctl")?;
    check_ok(close, "c")?;
    Ok(())
}

/// The calls `d4_ioctl_enotty` makes besides its checks: when `TCGETS` did
/// not fail with ENOTTY or EINVAL, it closes the file before the test
/// fails.
pub fn ioctl_cleanup(fd: i64, ioctl: SysVal) -> (acts: Vec<Act>)
    ensures
        acts@ == (if !fails_with(ioctl, seq![ENOTTY, EINVAL]) { seq![Act::Close(fd)] } else { Seq::<Act>::empty() }),
{
    if !failed_with(&ioctl, &[ENOTTY, EINVAL]) {
        vec![Act::Close(fd)]
    } else {
        vec![]
    }
}

/// `flock(LOCK_EX)` then `LOCK_UN` on a file.
pub fn d4_flock_ex_un(tmp: Sys, create: Sys, lock: Sys, unlock: Sys, close: Sys) -> (r: TestResult)
    ensures
        r == guard(ok(tmp, "t"), guard(ok(create, "c"), guard(ok(lock, "ex"),
            guard(ok(unlock, "un"), guard(ok(close, "c"), passed()))))),
{
    check_ok(tmp, "t")?;
    check_ok(create, "c")?;
    check_ok(lock, "ex")?;
    check_ok(unlock, "un")?;
    check_ok(close, "c")?;
    Ok(())
}

/// `flock(LOCK_SH | LOCK_NB)` then `LOCK_UN` on a file.
pub fn d4_flock_sh_nb(tmp: Sys, create: Sys, lock: Sys, unlock: Sys, close: Sys) -> (r: TestResult)
    ensures
        r == guard(ok(tmp, "t"), guard(ok(create, "c"), guard(ok(lock, "sh"),
            guard(ok(unlock, "un"), guard(ok(close, "c"), passed()))))),
{
    check_ok(tmp, "t")?;
    check_ok(create, "c")?;
    check_ok(lock, "sh")?;
    check_ok(unlock, "un")?;
    check_ok(close, "c")?;
    Ok(())
}

/// `FUTEX_WAKE` with no waiters wakes none (returns 0), or is unsupported.
pub fn d4_futex_wake_zero(wake: SysVal) -> (r: TestResult)
    ensures
        r == guard(that(wake == Ok::<i64, Errno>(0) || (wake is Err && is_soft(wake->Err_0)), "futex"),
            passed()),
{
    check(match wake { Ok(n) => n == 0, Err(e) => soft(e) }, "futex")?;
    Ok(())
}

/// `getdents64` of a directory returns entries.
pub fn d4_getdents_tmp(tmp: Sys, open: Sys, getdents: SysVal, close: Sys) -> (r: TestResult)
    ensures
        r == guard(ok(tmp, "t"), guard(ok(open, "o"), guard(ok(getdents, "gd"),
            guard(that((getdents->Ok_0) > 0, "n"), guard(ok(close, "c"), passed()))))),
{
    check_ok(tmp, "t")?;
    check_ok(open, "o")?;
    let n = check_ok(getdents, "gd")?;
    check(n > 0, "n")?;
    check_ok(close, "c")?;
    Ok(())
}

/// Signal 0 to the own process succeeds.
pub fn d4_kill_zero_self(kill: Sys) -> (r: TestResult)
    ensures
        r == guard(ok(kill, "exist"), passed()),
{
    check_ok(kill, "exist")?;
    Ok(())
}

/// `linkat` creates a hard link, which then unlinks.
pub fn d4_linkat_basic(
    tmp: Sys,
    setup_a: TestResult,
    setup_b: TestResult,
    linkat: Sys,
    unlink: Sys,
) -> (r: TestResult)
    ensures
        r == guard(ok(tmp, "t"), guard(nested(setup_a), guard(nested(setup_b),
            guard(ok(linkat, "linkat"), guard(ok(unlink, "ul"), passed()))))),
{
    check_ok(tmp, "t")?;
    setup_a?;
    setup_b?;
    check_ok(linkat, "linkat")?;
    check_ok(unlink, "ul")?;
    Ok(())
}

/// After `unlinkat`, `stat` of the file fails with `ENOENT`.
pub fn d4_unlinkat_file(tmp: Sys, setup: TestResult, unlinkat: Sys, stat: Sys) -> (r: TestResult)
    ensures
        r == guard(ok(tmp, "t"), guard(nested(setup), guard(ok(unlinkat, "ul"),
            guard(errs(stat, ENOENT, "gone"), passed())))),
{
    check_ok(tmp, "t")?;
    setup?;
    check_ok(unlinkat, "ul")?;
    check_err(stat, ENOENT, "gone")?;
    Ok(())
}

/// `unlinkat(AT_REMOVEDIR)` removes an empty directory.
pub fn d4_unlinkat_dir(tmp: Sys, setup: TestResult, mkdir: Sys, unlinkat: Sys) -> (r: TestResult)
    ensures
        r == guard(ok(tmp, "t"), guard(nested(setup), guard(ok(mkdir, "mk"),
            guard(ok(unlinkat, "rm"), passed())))),
{
    check_ok(tmp, "t")?;
    setup?;
    check_ok(mkdir, "mk")?;
    check_ok(unlinkat, "rm")?;
    Ok(())
}

/// `mkdirat` creates a directory that `rmdir` removes.
pub fn d4_mkdirat_basic(tmp: Sys, setup: TestResult, mkdirat: Sys, rmdir: Sys) -> (r: TestResult)
    ensures
        r == guard(ok(tmp, "t"), guard(nested(setup), guard(ok(mkdirat, "mk"),
            guard(ok(rmdir, "rm"), passed())))),
{
    check_ok(tmp, "t")?;
    setup?;
    check_ok(mkdirat, "mk")?;
    check_ok(rmdir, "rm")?;
    Ok(())
}

/// `mknodat(S_IFIFO)` creates a node that `stat` reports as a FIFO
/// (`stat` carries `st_mode`).
pub fn d4_mknodat_fifo(
    tmp: Sys,
    setup: TestResult,
    mknodat: Sys,
    stat: SysVal,
    unlink: Sys,
) -> (r: TestResult)
    ensures
        r == guard(ok(tmp, "t"), guard(nested(setup), guard(ok(mknodat, "mk"),
            guard(ok(stat, "st"), guard(that((stat->Ok_0) & S_IFMT == S_IFIFO, "fifo"),
            guard(ok(unlink, "ul"), passed())))))),
{
    check_ok(tmp, "t")?;
    setup?;
    check_ok(mknodat, "mk")?;
    let mode = check_ok(stat, "st")?;
    check(mode & S_IFMT == S_IFIFO, "fifo")?;
    check_ok(unlink, "ul")?;
    Ok(())
}

/// `lseek(SEEK_DATA)` on a written file succeeds or fails with `ENXIO`,
/// `EINVAL` or `ENOSYS`.
pub fn d4_lseek_data_soft(
    tmp: Sys,
    create: Sys,
    write: Sys,
    seek: SysVal,
    close: Sys,
) -> (r: TestResult)
    ensures
        r == guard(ok(tmp, "t"), guard(ok(create, "c"), guard(ok(write, "w"),
            guard(that(seek is Ok || fails_with(seek, seq![ENXIO, EINVAL, ENOSYS]), "seek data"),
            guard(ok(close, "c"), passed()))))),
{
    check_ok(tmp, "t")?;
    check_ok(create, "c")?;
    check_ok(write, "w")?;
    check(seek.is_ok() || failed_with(&seek, &[ENXIO, EINVAL, ENOSYS]), "seek data")?;
    check_ok(close, "c")?;
    Ok(())
}

/// `lseek(SEEK_HOLE)` on a sparse file succeeds or fails with `ENXIO`,
/// `EINVAL` or `ENOSYS`.
pub fn d4_lseek_hole_soft(
    tmp: Sys,
    create: Sys,
    truncate: Sys,
    seek: SysVal,
    close: Sys,
) -> (r: TestResult)
    ensures
        r == guard(ok(tmp, "t"), guard(ok(create, "c"), guard(ok(truncate, "tr"),
            guard(that(seek is Ok || fails_with(seek, seq![ENXIO, EINVAL, ENOSYS]), "seek hole"),
            guard(ok(close, "c"), passed()))))),
{
    check_ok(tmp, "t")?;
    check_ok(create, "c")?;
    check_ok(truncate, "tr")?;
    check(seek.is_ok() || failed_with(&seek, &[ENXIO, EINVAL, ENOSYS]), "seek hole")?;
    check_ok(close, "c")?;
    Ok(())
}

/// After writing four bytes, `SEEK_END` is at 4 and `-2, SEEK_CUR` at 2.
pub fn d4_lseek_end_cur(
    tmp: Sys,
    create: Sys,
    write: Sys,
    end: SysVal,
    cur: SysVal,
    close: Sys,
) -> (r: TestResult)
    ensures
        r == guard(ok(tmp, "t"), guard(ok(create, "c"), guard(ok(write, "w"), guard(ok(end, "end"),
            guard(that((end->Ok_0) == 4, "end"), guard(ok(cur, "cur"),
            guard(that((cur->Ok_0) == 2, "cur"), guard(ok(close, "c"), passed())))))))),
{
    check_ok(tmp, "t")?;
    check_ok(create, "c")?;
    check_ok(write, "w")?;
    let e = check_ok(end, "end")?;
    check(e == 4, "end")?;
    let c = check_ok(cur, "cur")?;
    check(c == 2, "cur")?;
    check_ok(close, "c")?;
    Ok(())
}

/// A byte written to a fresh anonymous page reads back (0x5A).
pub fn d4_mmap_anon_rw(mmap: Sys, read_back: u8, munmap: Sys) -> (r: TestResult)
    ensures
        r == guard(ok(mmap, "m"), guard(that(read_back == 0x5A, "rw"),
            guard(ok(munmap, "un"), passed()))),
{
    check_ok(mmap, "m")?;
    check(read_back == 0x5A, "rw")?;
    check_ok(munmap, "un")?;
    Ok(())
}

/// `mremap(MAYMOVE)` grows a one-page mapping to two pages (then removed),
/// or is unsupported.
pub fn d4_mremap_maymove(mmap: Sys, mremap: Sys, munmap: Sys) -> (r: TestResult)
    ensures
        r == guard(ok(mmap, "m"), guard(that(mremap is Ok || is_soft(mremap->Err_0), "mremap"),
            guard(only_if(mremap is Ok, ok(munmap, "un")), passed()))),
{
    check_ok(mmap, "m")?;
    check(match mremap { Ok(_) => true, Err(e) => soft(e) }, "mremap")?;
    if mremap.is_ok() {
        check_ok(munmap, "un")?;
    }
    Ok(())
}

/// The unmap `d4_mremap_maymove` makes after its `mremap` of the page at
/// `addr`: the two grown pages at the address `mremap` returned (this is the
/// checked unmap "un"), or, when `mremap` failed, the original page.
pub fn mremap_maymove_unmap(addr: u64, mremap: SysVal) -> (act: Act)
    ensures
        act == (match mremap { Ok(n) => Act::Munmap(n as u64, 8192), Err(_) => Act::Munmap(addr, 4096) }),
{
    match mremap {
        Ok(n) => Act::Munmap(n as u64, 8192),
        Err(_) => Act::Munmap(addr, 4096),
    }
}

/// `msync(MS_ASYNC)` of an anonymous page succeeds, or is unsupported.
pub fn d4_msync_async(mmap: Sys, msync: Sys, munmap: Sys) -> (r: TestResult)
    ensures
        r == guard(ok(mmap, "m"), guard(that(msync is Ok || is_soft(msync->Err_0), "msync"),
            guard(ok(munmap, "un"), passed()))),
{
    check_ok(mmap, "m")?;
    check(match msync { Ok(_) => true, Err(e) => soft(e) }, "msync")?;
    check_ok(munmap, "un")?;
    Ok(())
}

/// The calls `d4_msync_async` makes besides its checks: when `msync` fails
/// other than softly, it unmaps the page at `addr` before the test fails.
pub fn msync_cleanup(addr: u64, msync: Sys) -> (acts: Vec<Act>)
    ensures
        acts@ == (if msync is Err && !is_soft(msync->Err_0) { seq![Act::Munmap(addr, 4096)] } else { Seq::<Act>::empty() }),
{
    if match msync { Err(e) => !soft(e), Ok(_) => false } {
        vec![Act::Munmap(addr, 4096)]
    } else {
        vec![]
    }
}

/// `mincore` reports a touched anonymous page resident (`vec0`: the first
/// byte of its residency vector, bit 0 set for a resident page), or is
/// unsupported.
pub fn d4_mincore_page(mmap: Sys, mincore: Sys, vec0: u8, munmap: Sys) -> (r: TestResult)
    ensures
        r == guard(ok(mmap, "m"), guard(that(mincore is Ok || is_soft(mincore->Err_0), "mincore"),
            guard(only_if(mincore is Ok, that(vec0 & 1 != 0, "resident")),
            guard(ok(munmap, "un"), passed())))),
{
    check_ok(mmap, "m")?;
    check(match mincore { Ok(_) => true, Err(e) => soft(e) }, "mincore")?;
    if mincore.is_ok() {
        check(vec0 & 1 != 0, "resident")?;
    }
    check_ok(munmap, "un")?;
    Ok(())
}

/// `mq_open(O_CREAT)` creates a queue, or is refused as unavailable.
pub fn d4_mq_open_soft(open: Sys) -> (r: TestResult)
    ensures
        r ==
            guard(that(open is Ok || is_soft(open->Err_0) || fails_with(open, seq![EMFILE, ENFILE, EEXIST]), "mq"), passed()),
{
    check(match open { Ok(_) => true, Err(e) => soft(e) || e.0 == EMFILE || e.0 == ENFILE || e.0 == EEXIST }, "mq")?;
    Ok(())
}

/// `openat2(O_RDONLY)` opens an existing file, or is unsupported.
pub fn d4_openat2_rdonly(tmp: Sys, setup: TestResult, open: Sys, close: Sys) -> (r: TestResult)
    ensures
        r == guard(ok(tmp, "t"), guard(nested(setup),
            guard(that(open is Ok || is_soft(open->Err_0), "openat2"),
            guard(only_if(open is Ok, ok(close, "c")), passed())))),
{
    check_ok(tmp, "t")?;
    setup?;
    check(match open { Ok(_) => true, Err(e) => soft(e) }, "openat2")?;
    if open.is_ok() {
        check_ok(close, "c")?;
    }
    Ok(())
}

/// `openat2(RESOLVE_BENEATH)` of a file under a directory descriptor; any
/// refusal is tolerated, a success must close.
pub fn d4_openat2_resolve_beneath(
    tmp: Sys,
    open_dir: Sys,
    setup: TestResult,
    open: Sys,
    close: Sys,
    close_dir: Sys,
) -> (r: TestResult)
    ensures
        r == guard(ok(tmp, "t"), guard(ok(open_dir, "dir"), guard(nested(setup),
            guard(only_if(open is Ok, ok(close, "c")), guard(ok(close_dir, "cd"), passed()))))),
{
    check_ok(tmp, "t")?;
    check_ok(open_dir, "dir")?;
    setup?;
    if open.is_ok() {
        check_ok(close, "c")?;
    }
    check_ok(close_dir, "cd")?;
    Ok(())
}

/// `openat2(RESOLVE_NO_SYMLINKS)` opens a path without symlinks (a regular
/// file beside a symlink to it), or is unsupported.
pub fn d4_openat2_no_symlinks(
    tmp: Sys,
    setup_file: TestResult,
    setup_link: TestResult,
    symlink: Sys,
    open: Sys,
    close: Sys,
) -> (r: TestResult)
    ensures
        r == guard(ok(tmp, "t"), guard(nested(setup_file), guard(nested(setup_link),
            guard(ok(symlink, "sym"), guard(that(open is Ok || is_soft(open->Err_0), "openat2 nosym"),
            guard(only_if(open is Ok, ok(close, "c")), passed())))))),
{
    check_ok(tmp, "t")?;
    setup_file?;
    setup_link?;
    check_ok(symlink, "sym")?;
    check(match open { Ok(_) => true, Err(e) => soft(e) }, "openat2 nosym")?;
    if open.is_ok() {
        check_ok(close, "c")?;
    }
    Ok(())
}

/// A child's pidfd delivers `SIGKILL` and closes, then the child is reaped;
/// an unsupported `pidfd_open` passes on to the reaping.
pub fn d4_pidfd_open_self_child(
    fork: Sys,
    open: Sys,
    signal: Sys,
    close: Sys,
    wait: Sys,
) -> (r: TestResult)
    ensures
        r == guard(ok(fork, "f"), guard(that(open is Ok || is_soft(open->Err_0), "pidfd"),
            guard(only_if(open is Ok, ok(signal, "sig")),
            guard(only_if(open is Ok, ok(close, "c")), guard(ok(wait, "w"), passed()))))),
{
    check_ok(fork, "f")?;
    check(match open { Ok(_) => true, Err(e) => soft(e) }, "pidfd")?;
    if open.is_ok() {
        check_ok(signal, "sig")?;
        check_ok(close, "c")?;
    }
    check_ok(wait, "w")?;
    Ok(())
}

/// The calls `d4_pidfd_open_self_child` makes besides its checks: when
/// `pidfd_open` of the sleeping child `pid` is unsupported, the child is
/// killed (the checked wait then reaps it); on another error it is killed
/// and reaped before the test fails.
pub fn d4_pidfd_open_cleanup(pid: i64, open: Sys) -> (acts: Vec<Act>)
    ensures
        acts@ == (match open {
            Ok(_) => Seq::<Act>::empty(),
            Err(e) => if is_soft(e) { seq![Act::Kill(pid)] } else { seq![Act::KillReap(pid)] },
        }),
{
    match open {
        Ok(_) => vec![],
        Err(e) => if soft(e) { vec![Act::Kill(pid)] } else { vec![Act::KillReap(pid)] },
    }
}

/// `pwrite` of "ABCD" then `pread` of two bytes at offset 2 gives "CD".
pub fn d4_pread_pwrite(
    tmp: Sys,
    create: Sys,
    pwrite: Sys,
    pread: SysVal,
    buf: [u8; 2],
    close: Sys,
) -> (r: TestResult)
    ensures
        r == guard(ok(tmp, "t"), guard(ok(create, "c"), guard(ok(pwrite, "pw"),
            guard(ok(pread, "pr"), guard(that((pread->Ok_0) == 2, "n"),
            guard(that(buf@ == "CD".spec_bytes(), "data"), guard(ok(close, "c"), passed()))))))),
{
    check_ok(tmp, "t")?;
    check_ok(create, "c")?;
    check_ok(pwrite, "pw")?;
    let n = check_ok(pread, "pr")?;
    check(n == 2, "n")?;
    check(bytes_eq(&buf, "CD".as_bytes()), "data")?;
    check_ok(close, "c")?;
    Ok(())
}

/// `pwritev` of "XY" and "Z" then `preadv` of three bytes gives "XYZ".
pub fn d4_preadv_pwritev(
    tmp: Sys,
    create: Sys,
    pwritev: Sys,
    preadv: SysVal,
    out: [u8; 3],
    close: Sys,
) -> (r: TestResult)
    ensures
        r == guard(ok(tmp, "t"), guard(ok(create, "c"), guard(ok(pwritev, "pwv"),
            guard(ok(preadv, "prv"), guard(that((preadv->Ok_0) == 3, "n"),
            guard(that(out@ == "XYZ".spec_bytes(), "data"), guard(ok(close, "c"), passed()))))))),
{
    check_ok(tmp, "t")?;
    check_ok(create, "c")?;
    check_ok(pwritev, "pwv")?;
    let n = check_ok(preadv, "prv")?;
    check(n == 3, "n")?;
    check(bytes_eq(&out, "XYZ".as_bytes()), "data")?;
    check_ok(close, "c")?;
    Ok(())
}

/// `writev` of "12" and "3", rewind, then `readv` of three bytes gives
/// "123".
pub fn d4_readv_writev(
    tmp: Sys,
    create: Sys,
    writev: Sys,
    rewind: Sys,
    readv: SysVal,
    out: [u8; 3],
    close: Sys,
) -> (r: TestResult)
    ensures
        r == guard(ok(tmp, "t"), guard(ok(create, "c"), guard(ok(writev, "wv"),
            guard(ok(rewind, "seek"), guard(ok(readv, "rv"), guard(that((readv->Ok_0) == 3, "n"),
            guard(that(out@ == "123".spec_bytes(), "data"), guard(ok(close, "c"), passed())))))))),
{
    check_ok(tmp, "t")?;
    check_ok(create, "c")?;
    check_ok(writev, "wv")?;
    check_ok(rewind, "seek")?;
    let n = check_ok(readv, "rv")?;
    check(n == 3, "n")?;
    check(bytes_eq(&out, "123".as_bytes()), "data")?;
    check_ok(close, "c")?;
    Ok(())
}

/// `process_vm_readv` of four own bytes (1, 2, 3, 4) copies them, or is
/// unsupported.
pub fn d4_process_vm_readv_self(read: SysVal, dst: [u8; 4]) -> (r: TestResult)
    ensures
        r == guard(that(read is Ok || is_soft(read->Err_0), "pvm"),
            guard(only_if(read is Ok, that((read->Ok_0) == 4, "n")),
            guard(only_if(read is Ok, that(dst[0] == 1 && dst[1] == 2 && dst[2] == 3 && dst[3] == 4, "data")), passed()))),
{
    check(match read { Ok(_) => true, Err(e) => soft(e) }, "pvm")?;
    if let Ok(n) = read {
        check(n == 4, "n")?;
        check(dst[0] == 1 && dst[1] == 2 && dst[2] == 3 && dst[3] == 4, "data")?;
    }
    Ok(())
}

/// `renameat2(RENAME_NOREPLACE)` to a free name succeeds, or is unsupported.
pub fn d4_renameat2_noreplace(
    tmp: Sys,
    setup_a: TestResult,
    setup_b: TestResult,
    rename: Sys,
) -> (r: TestResult)
    ensures
        r == guard(ok(tmp, "t"), guard(nested(setup_a), guard(nested(setup_b),
            guard(that(rename is Ok || is_soft(rename->Err_0), "ren2"), passed())))),
{
    check_ok(tmp, "t")?;
    setup_a?;
    setup_b?;
    check(match rename { Ok(_) => true, Err(e) => soft(e) }, "ren2")?;
    Ok(())
}

/// `renameat2(RENAME_EXCHANGE)` swaps two files, or is unsupported.
pub fn d4_renameat2_exchange(
    tmp: Sys,
    setup_a: TestResult,
    setup_b: TestResult,
    write_a: TestResult,
    write_b: TestResult,
    rename: Sys,
) -> (r: TestResult)
    ensures
        r == guard(ok(tmp, "t"), guard(nested(setup_a), guard(nested(setup_b),
            guard(nested(write_a), guard(nested(write_b),
            guard(that(rename is Ok || is_soft(rename->Err_0), "exch"), passed())))))),
{
    check_ok(tmp, "t")?;
    setup_a?;
    setup_b?;
    write_a?;
    write_b?;
    check(match rename { Ok(_) => true, Err(e) => soft(e) }, "exch")?;
    Ok(())
}

/// `sendfile` of eight bytes between two files moves all eight, or is
/// unsupported.
pub fn d4_sendfile_basic(
    tmp: Sys,
    create_in: Sys,
    write: Sys,
    rewind: Sys,
    create_out: Sys,
    sendfile: SysVal,
    close_in: Sys,
    close_out: Sys,
) -> (r: TestResult)
    ensures
        r == guard(ok(tmp, "t"), guard(ok(create_in, "in"), guard(ok(write, "w"),
            guard(ok(rewind, "seek"), guard(ok(create_out, "out"),
            guard(that(sendfile is Ok || is_soft(sendfile->Err_0), "sendfile"),
            guard(only_if(sendfile is Ok, that((sendfile->Ok_0) == 8, "n")),
            guard(ok(close_in, "ci"), guard(ok(close_out, "co"), passed()))))))))),
{
    check_ok(tmp, "t")?;
    check_ok(create_in, "in")?;
    check_ok(write, "w")?;
    check_ok(rewind, "seek")?;
    check_ok(create_out, "out")?;
    check(match sendfile { Ok(_) => true, Err(e) => soft(e) }, "sendfile")?;
    if let Ok(n) = sendfile {
        check(n == 8, "n")?;
    }
    check_ok(close_in, "ci")?;
    check_ok(close_out, "co")?;
    Ok(())
}

/// `copy_file_range` of nine bytes between two files copies all nine, or is
/// unsupported.
pub fn d4_copy_file_range_soft(
    tmp: Sys,
    create_in: Sys,
    write: Sys,
    create_out: Sys,
    cfr: SysVal,
    close_in: Sys,
    close_out: Sys,
) -> (r: TestResult)
    ensures
        r == guard(ok(tmp, "t"), guard(ok(create_in, "in"), guard(ok(write, "w"),
            guard(ok(create_out, "out"), guard(that(cfr is Ok || is_soft(cfr->Err_0), "cfr"),
            guard(only_if(cfr is Ok, that((cfr->Ok_0) == 9, "n")), guard(ok(close_in, "ci"),
            guard(ok(close_out, "co"), passed())))))))),
{
    check_ok(tmp, "t")?;
    check_ok(create_in, "in")?;
    check_ok(write, "w")?;
    check_ok(create_out, "out")?;
    check(match cfr { Ok(_) => true, Err(e) => soft(e) }, "cfr")?;
    if let Ok(n) = cfr {
        check(n == 9, "n")?;
    }
    check_ok(close_in, "ci")?;
    check_ok(close_out, "co")?;
    Ok(())
}

/// `ITIMER_REAL` armed for 5000 us, then disarmed.
pub fn d4_setitimer_real(set: Sys, clear: Sys) -> (r: TestResult)
    ensures
        r == guard(ok(set, "set"), guard(ok(clear, "clr"), passed())),
{
    check_ok(set, "set")?;
    check_ok(clear, "clr")?;
    Ok(())
}

/// `signalfd4` for `SIGUSR1` creates a descriptor, or is unsupported.
pub fn d4_signalfd_create(create: Sys, close: Sys) -> (r: TestResult)
    ensures
        r == guard(that(create is Ok || is_soft(create->Err_0), "signalfd"),
            guard(only_if(create is Ok, ok(close, "c")), passed())),
{
    check(match create { Ok(_) => true, Err(e) => soft(e) }, "signalfd")?;
    if create.is_ok() {
        check_ok(close, "c")?;
    }
    Ok(())
}

/// `statx(STATX_BASIC_STATS)` of a two-byte file fills in its type and
/// size (`mask`: the `stx_mask` it returned), the size being 2; or is
/// unsupported.
pub fn d4_statx_basic(
    tmp: Sys,
    setup: TestResult,
    write: TestResult,
    statx: Sys,
    mask: u32,
    size: u64,
) -> (r: TestResult)
    ensures
        r == guard(ok(tmp, "t"), guard(nested(setup), guard(nested(write),
            guard(that(statx is Ok || is_soft(statx->Err_0), "statx"),
            guard(only_if(statx is Ok, that(mask & STATX_TYPE != 0 && mask & STATX_SIZE != 0, "mask")),
            guard(only_if(statx is Ok, that(size == 2, "size")), passed())))))),
{
    check_ok(tmp, "t")?;
    setup?;
    write?;
    check(match statx { Ok(_) => true, Err(e) => soft(e) }, "statx")?;
    if statx.is_ok() {
        check(mask & STATX_TYPE != 0 && mask & STATX_SIZE != 0, "mask")?;
        check(size == 2, "size")?;
    }
    Ok(())
}

/// `waitid(WEXITED)` reaps an exited child.
pub fn d4_waitid_exited(fork: Sys, waitid: Sys) -> (r: TestResult)
    ensures
        r == guard(ok(fork, "f"), guard(ok(waitid, "waitid"), passed())),
{
    check_ok(fork, "f")?;
    check_ok(waitid, "waitid")?;
    Ok(())
}

/// `close_range(CLOSE_RANGE_CLOEXEC)` over a duplicate succeeds, or is
/// unsupported.
pub fn d4_close_range_cloexec(
    tmp: Sys,
    create: Sys,
    dup: Sys,
    close_range: Sys,
    close: Sys,
) -> (r: TestResult)
    ensures
        r == guard(ok(tmp, "t"), guard(ok(create, "c"), guard(ok(dup, "dup"),
            guard(that(close_range is Ok || is_soft(close_range->Err_0), "close_range"),
            guard(ok(close, "c"), passed()))))),
{
    check_ok(tmp, "t")?;
    check_ok(create, "c")?;
    check_ok(dup, "dup")?;
    check(match close_range { Ok(_) => true, Err(e) => soft(e) }, "close_range")?;
    check_ok(close, "c")?;
    Ok(())
}

/// The calls `d4_close_range_cloexec` makes besides its checks: when
/// `close_range` fails other than softly, it closes the copy `n` and the
/// file `fd` before the test fails; otherwise it closes the copy, whatever
/// that gives, before its checked close of the file.
pub fn close_range_cleanup(n: i64, fd: i64, close_range: Sys) -> (acts: Vec<Act>)
    ensures
        acts@ == (if close_range is Err && !is_soft(close_range->Err_0) {
            seq![Act::Close(n), Act::Close(fd)]
        } else {
            seq![Act::Close(n)]
        }),
{
    match close_range {
        Err(e) => if !soft(e) { vec![Act::Close(n), Act::Close(fd)] } else { vec![Act::Close(n)] },
        Ok(_) => vec![Act::Close(n)],
    }
}

/// `dup`, `dup2` and `dup3` each give a descriptor that closes.
pub fn d4_dup_dup2_dup3(
    tmp: Sys,
    create: Sys,
    dup: Sys,
    dup2: Sys,
    dup3: Sys,
    close1: Sys,
    close2: Sys,
    close3: Sys,
    close_fd: Sys,
) -> (r: TestResult)
    ensures
        r == guard(ok(tmp, "t"), guard(ok(create, "c"), guard(ok(dup, "dup"),
            guard(ok(dup2, "dup2"), guard(ok(dup3, "dup3"), guard(ok(close1, "c1"),
            guard(ok(close2, "c2"), guard(ok(close3, "c3"),
            guard(ok(close_fd, "cf"), passed()))))))))),
{
    check_ok(tmp, "t")?;
    check_ok(create, "c")?;
    check_ok(dup, "dup")?;
    check_ok(dup2, "dup2")?;
    check_ok(dup3, "dup3")?;
    check_ok(close1, "c1")?;
    check_ok(close2, "c2")?;
    check_ok(close3, "c3")?;
    check_ok(close_fd, "cf")?;
    Ok(())
}

/// Reading a zero nonblocking eventfd fails with `EAGAIN`; an unsupported
/// eventfd passes.
pub fn d4_efd_nonblock_eagain(create: Sys, read: SysVal, close: Sys) -> (r: TestResult)
    ensures
        r == guard(that(create is Ok || is_soft(create->Err_0), "efd"),
            guard(only_if(create is Ok, that(read is Err, "expected eagain")),
            guard(only_if(create is Ok, that(read is Ok || fails_with(read, seq![EAGAIN, EWOULDBLOCK]), "read")),
            guard(only_if(create is Ok, ok(close, "c")), passed())))),
{
    check(match create { Ok(_) => true, Err(e) => soft(e) }, "efd")?;
    if create.is_ok() {
        check(read.is_err(), "expected eagain")?;
        check(read.is_ok() || failed_with(&read, &[EAGAIN, EWOULDBLOCK]), "read")?;
        check_ok(close, "c")?;
    }
    Ok(())
}

/// Closing descriptor -1 fails with `EBADF`.
pub fn d4_check_err_bad_fd(close: Sys) -> (r: TestResult)
    ensures
        r == guard(errs(close, EBADF, "ebadf"), passed()),
{
    check_err(close, EBADF, "ebadf")?;
    Ok(())
}

} // verus!
