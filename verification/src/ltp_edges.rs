//! Edge cases across files, processes, memory, networking and signals.
//!
//! Each function is the verdict of one test: its arguments are what the
//! test's syscalls returned, in the order the test makes them.

use vstd::prelude::*;
use crate::plan::Act;
use vstd::string::StringSliceAdditionalSpecFns;
use crate::abi::{FD_CLOEXEC, O_ACCMODE, O_APPEND, O_NONBLOCK, O_RDWR, Rlimit, SOCK_STREAM, Timespec};
use crate::bytes::{any_nonzero, bytes_eq, i32_from_ne_bytes, le_u32, nul_position};
use crate::errno::{
    Errno, EAGAIN, EBADF, ECHILD, EINVAL, ENOMEM, ENOSPC, ENOSYS, ENOTSUP, ENOTTY, ENXIO,
    EOPNOTSUPP, EPERM,
};
use crate::harness::{
    Sys, SysVal, TestResult, check, check_err, check_ok, errs, fail, fails_with, failed_with,
    guard, nested, ok, only_if, passed, that,
};
use crate::timerfd::Itimerspec;
use crate::wait_status::{spec_exit_code, wexitstatus};

verus! {

/// Errors under which a probe counts as unsupported here rather than failed.
pub open spec fn is_soft(e: Errno) -> bool {
    e.0 == EINVAL || e.0 == ENOSYS || e.0 == EPERM || e.0 == EOPNOTSUPP || e.0 == ENOTSUP
        || e.0 == ENOMEM
}

/// Whether `e` means the probed feature is unsupported rather than broken.
pub fn soft(e: Errno) -> (r: bool)
    ensures
        r == is_soft(e),
{
    e.0 == EINVAL || e.0 == ENOSYS || e.0 == EPERM || e.0 == EOPNOTSUPP || e.0 == ENOTSUP
        || e.0 == ENOMEM
}

/// `fcntl(F_DUPFD_CLOEXEC, 0)` on a new file: temp dir, create, dup, close
/// both.
pub fn edge_fcntl_dupfd_cloexec_min_0(
    tmp: Sys,
    create: Sys,
    dup: Sys,
    close_fd: Sys,
    close_dup: Sys,
) -> (r: TestResult)
    ensures
        r == guard(ok(tmp, "t"), guard(ok(create, "c"), guard(ok(dup, "d"),
            guard(ok(close_fd, "cf"), guard(ok(close_dup, "cd"), passed()))))),
{
    check_ok(tmp, "t")?;
    check_ok(create, "c")?;
    check_ok(dup, "d")?;
    check_ok(close_fd, "cf")?;
    check_ok(close_dup, "cd")?;
    Ok(())
}

/// `fcntl(F_GETFL)` on a file created read-write reports access mode
/// `O_RDWR`.
pub fn edge_fcntl_getfl_rdwr(tmp: Sys, create: Sys, getfl: SysVal, close: Sys) -> (r: TestResult)
    ensures
        r == guard(ok(tmp, "t"), guard(ok(create, "c"), guard(ok(getfl, "g"),
            guard(that((getfl->Ok_0) & O_ACCMODE == O_RDWR, "rdwr"),
            guard(ok(close, "c"), passed()))))),
{
    check_ok(tmp, "t")?;
    check_ok(create, "c")?;
    let fl = check_ok(getfl, "g")?;
    check(fl & O_ACCMODE == O_RDWR, "rdwr")?;
    check_ok(close, "c")?;
    Ok(())
}

/// A whole-file read lock taken and released with `F_SETLK`.
pub fn edge_fcntl_setlk_read_whole(
    tmp: Sys,
    create: Sys,
    write: Sys,
    lock: Sys,
    unlock: Sys,
    close: Sys,
) -> (r: TestResult)
    ensures
        r == guard(ok(tmp, "t"), guard(ok(create, "c"), guard(ok(write, "w"), guard(ok(lock, "lk"),
            guard(ok(unlock, "un"), guard(ok(close, "c"), passed())))))),
{
    check_ok(tmp, "t")?;
    check_ok(create, "c")?;
    check_ok(write, "w")?;
    check_ok(lock, "lk")?;
    check_ok(unlock, "un")?;
    check_ok(close, "c")?;
    Ok(())
}

/// A one-byte read lock taken with `F_SETLKW` and released.
pub fn edge_fcntl_setlkw_read(
    tmp: Sys,
    create: Sys,
    lock: Sys,
    unlock: Sys,
    close: Sys,
) -> (r: TestResult)
    ensures
        r == guard(ok(tmp, "t"), guard(ok(create, "c"), guard(ok(lock, "lk"),
            guard(ok(unlock, "un"), guard(ok(close, "c"), passed()))))),
{
    check_ok(tmp, "t")?;
    check_ok(create, "c")?;
    check_ok(lock, "lk")?;
    check_ok(unlock, "un")?;
    check_ok(close, "c")?;
    Ok(())
}

/// `lseek(SEEK_DATA)` on an empty file may succeed or fail with `ENXIO`,
/// `EINVAL` or `ENOSYS`.
pub fn edge_lseek_data_empty_file_soft(
    tmp: Sys,
    create: Sys,
    seek: SysVal,
    close: Sys,
) -> (r: TestResult)
    ensures
        r == guard(ok(tmp, "t"), guard(ok(create, "c"),
            guard(that(seek is Ok || fails_with(seek, seq![ENXIO, EINVAL, ENOSYS]), "seek data"),
            guard(ok(close, "c"), passed())))),
{
    check_ok(tmp, "t")?;
    check_ok(create, "c")?;
    check(seek.is_ok() || failed_with(&seek, &[ENXIO, EINVAL, ENOSYS]), "seek data")?;
    check_ok(close, "c")?;
    Ok(())
}

/// `lseek(SEEK_HOLE)` on an empty file may succeed or fail with `EINVAL`,
/// `ENOSYS` or `ENXIO`.
pub fn edge_lseek_hole_empty_soft(
    tmp: Sys,
    create: Sys,
    seek: SysVal,
    close: Sys,
) -> (r: TestResult)
    ensures
        r == guard(ok(tmp, "t"), guard(ok(create, "c"),
            guard(that(seek is Ok || fails_with(seek, seq![EINVAL, ENOSYS, ENXIO]), "seek hole"),
            guard(ok(close, "c"), passed())))),
{
    check_ok(tmp, "t")?;
    check_ok(create, "c")?;
    check(seek.is_ok() || failed_with(&seek, &[EINVAL, ENOSYS, ENXIO]), "seek hole")?;
    check_ok(close, "c")?;
    Ok(())
}

/// `preadv` of "WXYZ" into two two-byte buffers fills "WX" and "YZ".
pub fn edge_preadv_two_then_stat(
    tmp: Sys,
    create: Sys,
    write: Sys,
    preadv: SysVal,
    a: [u8; 2],
    b: [u8; 2],
    close: Sys,
) -> (r: TestResult)
    ensures
        r == guard(ok(tmp, "t"), guard(ok(create, "c"), guard(ok(write, "w"),
            guard(ok(preadv, "pv"), guard(that((preadv->Ok_0) == 4, "n"),
            guard(that(a@ == "WX".spec_bytes(), "a"), guard(that(b@ == "YZ".spec_bytes(), "b"),
            guard(ok(close, "c"), passed())))))))),
{
    check_ok(tmp, "t")?;
    check_ok(create, "c")?;
    check_ok(write, "w")?;
    let n = check_ok(preadv, "pv")?;
    check(n == 4, "n")?;
    check(bytes_eq(&a, "WX".as_bytes()), "a")?;
    check(bytes_eq(&b, "YZ".as_bytes()), "b")?;
    check_ok(close, "c")?;
    Ok(())
}

/// `pwritev` of four one-byte buffers writes "abcd" at offset 0.
pub fn edge_pwritev_scatter_4(
    tmp: Sys,
    create: Sys,
    pwritev: SysVal,
    pread: Sys,
    out: [u8; 4],
    close: Sys,
) -> (r: TestResult)
    ensures
        r == guard(ok(tmp, "t"), guard(ok(create, "c"), guard(ok(pwritev, "pw"),
            guard(that((pwritev->Ok_0) == 4, "n"), guard(ok(pread, "r"),
            guard(that(out@ == "abcd".spec_bytes(), "d"), guard(ok(close, "c"), passed()))))))),
{
    check_ok(tmp, "t")?;
    check_ok(create, "c")?;
    let n = check_ok(pwritev, "pw")?;
    check(n == 4, "n")?;
    check_ok(pread, "r")?;
    check(bytes_eq(&out, "abcd".as_bytes()), "d")?;
    check_ok(close, "c")?;
    Ok(())
}

/// `sync_file_range` over the middle of a written file.
pub fn edge_sync_file_range_mid(
    tmp: Sys,
    create: Sys,
    write: Sys,
    sfr: Sys,
    close: Sys,
) -> (r: TestResult)
    ensures
        r == guard(ok(tmp, "t"), guard(ok(create, "c"), guard(ok(write, "w"), guard(ok(sfr, "sfr"),
            guard(ok(close, "c"), passed()))))),
{
    check_ok(tmp, "t")?;
    check_ok(create, "c")?;
    check_ok(write, "w")?;
    check_ok(sfr, "sfr")?;
    check_ok(close, "c")?;
    Ok(())
}

/// `fallocate` of 1 KiB grows the file to 1024 bytes, or is refused as
/// unsupported or for lack of space.
pub fn edge_fallocate_1k_soft(
    tmp: Sys,
    create: Sys,
    falloc: Sys,
    size: SysVal,
    close: Sys,
) -> (r: TestResult)
    ensures
        r == guard(ok(tmp, "t"), guard(ok(create, "c"),
            guard(that(falloc is Ok || is_soft(falloc->Err_0) || falloc->Err_0.0 == ENOSPC, "falloc"),
            guard(only_if(falloc is Ok, ok(size, "st")),
            guard(only_if(falloc is Ok, that((size->Ok_0) == 1024, "sz")),
            guard(ok(close, "c"), passed())))))),
{
    check_ok(tmp, "t")?;
    check_ok(create, "c")?;
    check(match falloc { Ok(_) => true, Err(e) => soft(e) || e.0 == ENOSPC }, "falloc")?;
    if falloc.is_ok() {
        let sz = check_ok(size, "st")?;
        check(sz == 1024, "sz")?;
    }
    check_ok(close, "c")?;
    Ok(())
}

/// `copy_file_range` of one byte between two files copies exactly one byte.
pub fn edge_copy_file_range_one_byte(
    tmp: Sys,
    setup: TestResult,
    open_w: Sys,
    write: Sys,
    close_w: Sys,
    open_in: Sys,
    out_path: Sys,
    open_out: Sys,
    cfr: SysVal,
    close_in: Sys,
    close_out: Sys,
) -> (r: TestResult)
    ensures
        r == guard(ok(tmp, "t"), guard(nested(setup), guard(ok(open_w, "o"), guard(ok(write, "w"),
            guard(ok(close_w, "cw"), guard(ok(open_in, "in"), guard(ok(out_path, "outp"),
            guard(ok(open_out, "out"), guard(ok(cfr, "cfr"), guard(that((cfr->Ok_0) == 1, "n"),
            guard(ok(close_in, "ci"), guard(ok(close_out, "co"), passed())))))))))))),
{
    check_ok(tmp, "t")?;
    setup?;
    check_ok(open_w, "o")?;
    check_ok(write, "w")?;
    check_ok(close_w, "cw")?;
    check_ok(open_in, "in")?;
    check_ok(out_path, "outp")?;
    check_ok(open_out, "out")?;
    let n = check_ok(cfr, "cfr")?;
    check(n == 1, "n")?;
    check_ok(close_in, "ci")?;
    check_ok(close_out, "co")?;
    Ok(())
}

/// `sendfile` of two bytes from offset 1 of "ABCD" into a pipe delivers
/// "BC".
pub fn edge_sendfile_count_2(
    tmp: Sys,
    setup: TestResult,
    open_w: Sys,
    write: Sys,
    close_w: Sys,
    open_in: Sys,
    pipe: Sys,
    sendfile: SysVal,
    close_pw: Sys,
    close_in: Sys,
    read: Sys,
    b: [u8; 2],
    close_pr: Sys,
) -> (r: TestResult)
    ensures
        r == guard(ok(tmp, "t"), guard(nested(setup), guard(ok(open_w, "w"), guard(ok(write, "wr"),
            guard(ok(close_w, "cw"), guard(ok(open_in, "in"), guard(ok(pipe, "p"),
            guard(ok(sendfile, "sf"), guard(that((sendfile->Ok_0) == 2, "n"),
            guard(ok(close_pw, "cw2"), guard(ok(close_in, "ci"), guard(ok(read, "r"),
            guard(that(b@ == "BC".spec_bytes(), "d"),
            guard(ok(close_pr, "cr"), passed())))))))))))))),
{
    check_ok(tmp, "t")?;
    setup?;
    check_ok(open_w, "w")?;
    check_ok(write, "wr")?;
    check_ok(close_w, "cw")?;
    check_ok(open_in, "in")?;
    check_ok(pipe, "p")?;
    let n = check_ok(sendfile, "sf")?;
    check(n == 2, "n")?;
    check_ok(close_pw, "cw2")?;
    check_ok(close_in, "ci")?;
    check_ok(read, "r")?;
    check(bytes_eq(&b, "BC".as_bytes()), "d")?;
    check_ok(close_pr, "cr")?;
    Ok(())
}

/// `tee` duplicates all eight buffered bytes from one pipe into another.
pub fn edge_tee_size_8(
    pipe1: Sys,
    pipe2: Sys,
    write: Sys,
    tee: SysVal,
    close_w1: Sys,
    close_w2: Sys,
    close_r1: Sys,
    close_r2: Sys,
) -> (r: TestResult)
    ensures
        r == guard(ok(pipe1, "p1"), guard(ok(pipe2, "p2"), guard(ok(write, "w"),
            guard(ok(tee, "tee"), guard(that((tee->Ok_0) == 8, "n"), guard(ok(close_w1, "cw1"),
            guard(ok(close_w2, "cw2"), guard(ok(close_r1, "cr1"),
            guard(ok(close_r2, "cr2"), passed()))))))))),
{
    check_ok(pipe1, "p1")?;
    check_ok(pipe2, "p2")?;
    check_ok(write, "w")?;
    let n = check_ok(tee, "tee")?;
    check(n == 8, "n")?;
    check_ok(close_w1, "cw1")?;
    check_ok(close_w2, "cw2")?;
    check_ok(close_r1, "cr1")?;
    check_ok(close_r2, "cr2")?;
    Ok(())
}

/// `splice` moves all four buffered bytes from one pipe into another.
pub fn edge_splice_size_4(
    pipe1: Sys,
    pipe2: Sys,
    write: Sys,
    splice: SysVal,
    close_w1: Sys,
    close_w2: Sys,
    close_r1: Sys,
    close_r2: Sys,
) -> (r: TestResult)
    ensures
        r == guard(ok(pipe1, "p1"), guard(ok(pipe2, "p2"), guard(ok(write, "w"),
            guard(ok(splice, "sp"), guard(that((splice->Ok_0) == 4, "n"),
            guard(ok(close_w1, "cw1"), guard(ok(close_w2, "cw2"), guard(ok(close_r1, "cr1"),
            guard(ok(close_r2, "cr2"), passed()))))))))),
{
    check_ok(pipe1, "p1")?;
    check_ok(pipe2, "p2")?;
    check_ok(write, "w")?;
    let n = check_ok(splice, "sp")?;
    check(n == 4, "n")?;
    check_ok(close_w1, "cw1")?;
    check_ok(close_w2, "cw2")?;
    check_ok(close_r1, "cr1")?;
    check_ok(close_r2, "cr2")?;
    Ok(())
}

/// Children exiting with codes 0, 3 and 100 are each reaped with that exit
/// code; round `i` forks, waits and checks `statuses[i]`.
pub fn edge_waitpid_exit_status_matrix_small(
    forks: [Sys; 3],
    waits: [Sys; 3],
    statuses: [i32; 3],
) -> (r: TestResult)
    ensures
        r == guard(ok(forks[0], "f"), guard(ok(waits[0], "w"),
            guard(that(spec_exit_code(statuses[0]) == 0, "c"), guard(ok(forks[1], "f"),
            guard(ok(waits[1], "w"), guard(that(spec_exit_code(statuses[1]) == 3, "c"),
            guard(ok(forks[2], "f"), guard(ok(waits[2], "w"),
            guard(that(spec_exit_code(statuses[2]) == 100, "c"), passed()))))))))),
{
    check_ok(forks[0], "f")?;
    check_ok(waits[0], "w")?;
    check(wexitstatus(statuses[0]) == 0, "c")?;
    check_ok(forks[1], "f")?;
    check_ok(waits[1], "w")?;
    check(wexitstatus(statuses[1]) == 3, "c")?;
    check_ok(forks[2], "f")?;
    check_ok(waits[2], "w")?;
    check(wexitstatus(statuses[2]) == 100, "c")?;
    Ok(())
}

/// `wait4(WNOHANG)` on a sleeping child returns 0, the child itself, or
/// `ECHILD`.
pub fn edge_wait4_wnohang_running(fork: Sys, child: i64, nohang: SysVal) -> (r: TestResult)
    ensures
        r == guard(ok(fork, "f"),
            guard(that(match nohang { Ok(p) => p == 0 || p == child, Err(e) => e.0 == ECHILD }, "nohang"), passed())),
{
    check_ok(fork, "f")?;
    check(match nohang { Ok(p) => p == 0 || p == child, Err(e) => e.0 == ECHILD }, "nohang")?;
    Ok(())
}

/// The call `edge_wait4_wnohang_running` makes besides its checks, on
/// every path after its fork: a blocking `wait4` that reaps the child
/// `pid`, also before the test fails.
pub fn wnohang_reap(pid: i64) -> (act: Act)
    ensures
        act == Act::Reap(pid),
{
    Act::Reap(pid)
}

/// A child that makes itself a process-group leader exits 0 (see
/// `getpgid_child_exit_code`).
pub fn edge_getpgid_after_setpgid_child(fork: Sys, wait: Sys, status: i32) -> (r: TestResult)
    ensures
        r == guard(ok(fork, "f"), guard(ok(wait, "w"),
            guard(that(spec_exit_code(status) == 0, "ok"), passed()))),
{
    check_ok(fork, "f")?;
    check_ok(wait, "w")?;
    check(wexitstatus(status) == 0, "ok")?;
    Ok(())
}

/// `PR_SET_DUMPABLE` accepts 1 and 0 after `PR_GET_DUMPABLE`.
pub fn edge_prctl_dumpable_toggle(get: Sys, set1: Sys, set0: Sys) -> (r: TestResult)
    ensures
        r == guard(ok(get, "g"), guard(ok(set1, "s1"), guard(ok(set0, "s0"), passed()))),
{
    check_ok(get, "g")?;
    check_ok(set1, "s1")?;
    check_ok(set0, "s0")?;
    Ok(())
}

/// Two reads of `RLIMIT_NOFILE` agree.
pub fn edge_rlimit_nofile_get_twice(get_a: Sys, get_b: Sys, a: Rlimit, b: Rlimit) -> (r: TestResult)
    ensures
        r == guard(ok(get_a, "a"), guard(ok(get_b, "b"),
            guard(that(a.rlim_cur == b.rlim_cur, "cur"),
            guard(that(a.rlim_max == b.rlim_max, "max"), passed())))),
{
    check_ok(get_a, "a")?;
    check_ok(get_b, "b")?;
    check(a.rlim_cur == b.rlim_cur, "cur")?;
    check(a.rlim_max == b.rlim_max, "max")?;
    Ok(())
}

/// `getrusage(RUSAGE_SELF)` reports a non-negative voluntary
/// context-switch count.
pub fn edge_getrusage_self_nvcsw(ru: SysVal) -> (r: TestResult)
    ensures
        r == guard(ok(ru, "ru"), guard(that((ru->Ok_0) >= 0, "nvcsw"), passed())),
{
    let nvcsw = check_ok(ru, "ru")?;
    check(nvcsw >= 0, "nvcsw")?;
    Ok(())
}

/// A write-only anonymous mapping is created and removed, or refused as
/// unsupported.
pub fn edge_mmap_prot_write_only_soft(mmap: SysVal, munmap: Sys) -> (r: TestResult)
    ensures
        r == guard(that(mmap is Ok || is_soft(mmap->Err_0), "mmap w"),
            guard(only_if(mmap is Ok, ok(munmap, "u")), passed())),
{
    check(match mmap { Ok(_) => true, Err(e) => soft(e) }, "mmap w")?;
    if mmap.is_ok() {
        check_ok(munmap, "u")?;
    }
    Ok(())
}

/// `madvise` accepts NORMAL, RANDOM, SEQUENTIAL, WILLNEED and DONTNEED on an
/// anonymous page.
pub fn edge_madvise_all_common(mmap: Sys, advice: [Sys; 5], munmap: Sys) -> (r: TestResult)
    ensures
        r == guard(ok(mmap, "m"), guard(ok(advice[0], "adv"), guard(ok(advice[1], "adv"),
            guard(ok(advice[2], "adv"), guard(ok(advice[3], "adv"), guard(ok(advice[4], "adv"),
            guard(ok(munmap, "u"), passed()))))))),
{
    check_ok(mmap, "m")?;
    check_ok(advice[0], "adv")?;
    check_ok(advice[1], "adv")?;
    check_ok(advice[2], "adv")?;
    check_ok(advice[3], "adv")?;
    check_ok(advice[4], "adv")?;
    check_ok(munmap, "u")?;
    Ok(())
}

/// `mremap(MAYMOVE)` grows a one-page mapping to two pages.
pub fn edge_mremap_grow_4_to_8(mmap: Sys, mremap: Sys, munmap: Sys) -> (r: TestResult)
    ensures
        r == guard(ok(mmap, "m"), guard(ok(mremap, "r"), guard(ok(munmap, "u"), passed()))),
{
    check_ok(mmap, "m")?;
    check_ok(mremap, "r")?;
    check_ok(munmap, "u")?;
    Ok(())
}

/// After a page is written, `mincore` reports it resident.
pub fn edge_mincore_after_touch(
    mmap: Sys,
    mincore: Sys,
    vec: [u8; 1],
    munmap: Sys,
) -> (r: TestResult)
    ensures
        r == guard(ok(mmap, "m"), guard(ok(mincore, "mc"), guard(that(vec[0] & 1 != 0, "res"),
            guard(ok(munmap, "u"), passed())))),
{
    check_ok(mmap, "m")?;
    check_ok(mincore, "mc")?;
    check(vec[0] & 1 != 0, "res")?;
    check_ok(munmap, "u")?;
    Ok(())
}

/// `brk` can grow the heap by a page, or refuses as unsupported.
pub fn edge_brk_grow_one_page_soft(query: Sys, grow: Sys) -> (r: TestResult)
    ensures
        r == guard(ok(query, "q"), guard(that(grow is Ok || is_soft(grow->Err_0), "brk"), passed())),
{
    check_ok(query, "q")?;
    check(match grow { Ok(_) => true, Err(e) => soft(e) }, "brk")?;
    Ok(())
}

/// `CLOCK_BOOTTIME` reads a non-negative time, or is unsupported.
pub fn edge_clock_gettime_boottime(t: Result<Timespec, Errno>) -> (r: TestResult)
    ensures
        r == guard(that(t is Ok || is_soft(t->Err_0), "boot"),
            guard(only_if(t is Ok, that((t->Ok_0).tv_sec >= 0, "sec")), passed())),
{
    check(match t { Ok(_) => true, Err(e) => soft(e) }, "boot")?;
    if let Ok(ts) = t {
        check(ts.tv_sec >= 0, "sec")?;
    }
    Ok(())
}

/// `CLOCK_MONOTONIC` has a nonzero resolution.
pub fn edge_clock_getres_monotonic(res: Result<Timespec, Errno>) -> (r: TestResult)
    ensures
        r == guard(ok(res, "r"),
            guard(that((res->Ok_0).tv_nsec > 0 || (res->Ok_0).tv_sec > 0, "nz"), passed())),
{
    let r = check_ok(res, "r")?;
    check(r.tv_nsec > 0 || r.tv_sec > 0, "nz")?;
    Ok(())
}

/// A 100 microsecond `nanosleep` completes.
pub fn edge_nanosleep_100us(sleep: Sys) -> (r: TestResult)
    ensures
        r == guard(ok(sleep, "ns"), passed()),
{
    check_ok(sleep, "ns")?;
    Ok(())
}

/// The setting `edge_timerfd_abstime_future` arms its timerfd with, as an
/// absolute monotonic time: no interval, expiry at the whole second 100 s
/// after `now`.
pub fn abstime_future_setting(now: &Timespec) -> (r: Itimerspec)
    requires
        now.tv_sec + 100 <= i64::MAX,
    ensures
        r == (Itimerspec {
            interval: Timespec { tv_sec: 0, tv_nsec: 0 },
            value: Timespec { tv_sec: (now.tv_sec + 100) as i64, tv_nsec: 0 },
        }),
{
    Itimerspec {
        interval: Timespec { tv_sec: 0, tv_nsec: 0 },
        value: Timespec { tv_sec: now.tv_sec + 100, tv_nsec: 0 },
    }
}

/// The all-zero setting that disarms a timer.
pub fn disarmed_setting() -> (r: Itimerspec)
    ensures
        r == (Itimerspec {
            interval: Timespec { tv_sec: 0, tv_nsec: 0 },
            value: Timespec { tv_sec: 0, tv_nsec: 0 },
        }),
{
    Itimerspec {
        interval: Timespec { tv_sec: 0, tv_nsec: 0 },
        value: Timespec { tv_sec: 0, tv_nsec: 0 },
    }
}

/// A timerfd armed at an absolute time 100 s ahead (`set`: the
/// `timerfd_settime(TFD_TIMER_ABSTIME)` with `abstime_future_setting` of
/// the clock reading `now`), then disarmed (`clear`: with
/// `disarmed_setting`).
pub fn edge_timerfd_abstime_future(
    create: Sys,
    now: Sys,
    set: Sys,
    clear: Sys,
    close: Sys,
) -> (r: TestResult)
    ensures
        r == guard(ok(create, "t"), guard(ok(now, "n"), guard(ok(set, "set"),
            guard(ok(clear, "clr"), guard(ok(close, "c"), passed()))))),
{
    check_ok(create, "t")?;
    check_ok(now, "n")?;
    check_ok(set, "set")?;
    check_ok(clear, "clr")?;
    check_ok(close, "c")?;
    Ok(())
}

/// `recv(MSG_DONTWAIT)` on an empty UDP socket fails with `EAGAIN`.
pub fn edge_udp_dontwait(socket: Sys, bind: Sys, recv: SysVal, close: Sys) -> (r: TestResult)
    ensures
        r == guard(ok(socket, "s"), guard(ok(bind, "b"), guard(errs(recv, EAGAIN, "eagain"),
            guard(ok(close, "c"), passed())))),
{
    check_ok(socket, "s")?;
    check_ok(bind, "b")?;
    check_err(recv, EAGAIN, "eagain")?;
    check_ok(close, "c")?;
    Ok(())
}

/// `shutdown(SHUT_RDWR)` on a connected loopback TCP client.
pub fn edge_tcp_shutdown_rdwr_pair(
    socket: Sys,
    reuse: Sys,
    bind: Sys,
    listen: Sys,
    name: Sys,
    client: Sys,
    connect: Sys,
    accept: Sys,
    shutdown: Sys,
    close_acc: Sys,
    close_cli: Sys,
    close_srv: Sys,
) -> (r: TestResult)
    ensures
        r == guard(ok(socket, "s"), guard(ok(reuse, "r"), guard(ok(bind, "b"),
            guard(ok(listen, "l"), guard(ok(name, "n"), guard(ok(client, "c"),
            guard(ok(connect, "conn"), guard(ok(accept, "a"), guard(ok(shutdown, "sh"),
            guard(ok(close_acc, "ca"), guard(ok(close_cli, "cc"),
            guard(ok(close_srv, "cs"), passed())))))))))))),
{
    check_ok(socket, "s")?;
    check_ok(reuse, "r")?;
    check_ok(bind, "b")?;
    check_ok(listen, "l")?;
    check_ok(name, "n")?;
    check_ok(client, "c")?;
    check_ok(connect, "conn")?;
    check_ok(accept, "a")?;
    check_ok(shutdown, "sh")?;
    check_ok(close_acc, "ca")?;
    check_ok(close_cli, "cc")?;
    check_ok(close_srv, "cs")?;
    Ok(())
}

/// `SO_TYPE` of a TCP socket reads back `SOCK_STREAM`.
pub fn edge_so_type_stream(
    socket: Sys,
    getsockopt: Sys,
    val: [u8; 4],
    close: Sys,
) -> (r: TestResult)
    ensures
        r == guard(ok(socket, "s"), guard(ok(getsockopt, "g"),
            guard(that(le_u32(val@) as i32 == SOCK_STREAM, "t"), guard(ok(close, "c"), passed())))),
{
    check_ok(socket, "s")?;
    check_ok(getsockopt, "g")?;
    check(i32_from_ne_bytes(val) as i64 == SOCK_STREAM, "t")?;
    check_ok(close, "c")?;
    Ok(())
}

/// Signal 0 to the own process succeeds.
pub fn edge_kill_zero_self(kill: Sys) -> (r: TestResult)
    ensures
        r == guard(ok(kill, "k"), passed()),
{
    check_ok(kill, "k")?;
    Ok(())
}

/// `SIGUSR1` set to ignored, then back to default.
pub fn edge_sigaction_ign_usr1(ignore: Sys, restore: Sys) -> (r: TestResult)
    ensures
        r == guard(ok(ignore, "ign"), guard(ok(restore, "dfl"), passed())),
{
    check_ok(ignore, "ign")?;
    check_ok(restore, "dfl")?;
    Ok(())
}

/// `SIGUSR1` blocked, then the old mask restored.
pub fn edge_sigprocmask_block_usr1(block: Sys, restore: Sys) -> (r: TestResult)
    ensures
        r == guard(ok(block, "b"), guard(ok(restore, "r"), passed())),
{
    check_ok(block, "b")?;
    check_ok(restore, "r")?;
    Ok(())
}

/// `poll` with timeout 0 on an empty pipe reports no ready descriptor.
pub fn edge_poll_pipe_timeout_0(
    pipe: Sys,
    poll: SysVal,
    close_r: Sys,
    close_w: Sys,
) -> (r: TestResult)
    ensures
        r == guard(ok(pipe, "p"), guard(ok(poll, "poll"), guard(that((poll->Ok_0) == 0, "n"),
            guard(ok(close_r, "r"), guard(ok(close_w, "w"), passed()))))),
{
    check_ok(pipe, "p")?;
    let n = check_ok(poll, "poll")?;
    check(n == 0, "n")?;
    check_ok(close_r, "r")?;
    check_ok(close_w, "w")?;
    Ok(())
}

/// Reading a zero nonblocking eventfd fails with `EAGAIN`.
pub fn edge_eventfd_nonblock(create: Sys, read: SysVal, close: Sys) -> (r: TestResult)
    ensures
        r == guard(ok(create, "e"), guard(errs(read, EAGAIN, "eagain"),
            guard(ok(close, "c"), passed()))),
{
    check_ok(create, "e")?;
    check_err(read, EAGAIN, "eagain")?;
    check_ok(close, "c")?;
    Ok(())
}

/// `uname` reports a NUL-terminated, non-empty machine name.
pub fn edge_uname_machine_nonempty(uname: Sys, machine: &[u8]) -> (r: TestResult)
    ensures
        r == guard(ok(uname, "u"),
            guard(that(exists|i: int| 0 < i < machine@.len() && machine@[i] == 0 && forall|j: int| 0 <= j < i ==> machine@[j] != 0, "mach"), passed())),
{
    check_ok(uname, "u")?;
    check(match nul_position(machine) { Some(end) => end > 0, None => false }, "mach")?;
    Ok(())
}

/// `getrandom(GRND_NONBLOCK)` returns bytes, or fails with `EAGAIN`, `ENOSYS`
/// or `EINVAL`.
pub fn edge_getrandom_nonblock(gr: SysVal) -> (r: TestResult)
    ensures
        r == guard(that(gr is Ok || fails_with(gr, seq![EAGAIN, ENOSYS, EINVAL]), "gr"),
            guard(only_if(gr is Ok, that((gr->Ok_0) > 0, "n")), passed())),
{
    check(gr.is_ok() || failed_with(&gr, &[EAGAIN, ENOSYS, EINVAL]), "gr")?;
    if let Ok(n) = gr {
        check(n > 0, "n")?;
    }
    Ok(())
}

/// `TIOCGWINSZ` on a regular file succeeds or fails with `ENOTTY` or
/// `EINVAL`.
pub fn edge_ioctl_enotty(tmp: Sys, create: Sys, ioctl: SysVal, close: Sys) -> (r: TestResult)
    ensures
        r == guard(ok(tmp, "t"), guard(ok(create, "c"),
            guard(that(ioctl is Ok || fails_with(ioctl, seq![ENOTTY, EINVAL]), "ioctl"),
            guard(ok(close, "c"), passed())))),
{
    check_ok(tmp, "t")?;
    check_ok(create, "c")?;
    check(ioctl.is_ok() || failed_with(&ioctl, &[ENOTTY, EINVAL]), "ioctl")?;
    check_ok(close, "c")?;
    Ok(())
}

/// `dup3(O_CLOEXEC)` gives a descriptor with `FD_CLOEXEC` set.
pub fn edge_dup3_cloexec_flag(
    tmp: Sys,
    create: Sys,
    dup3: Sys,
    getfd: SysVal,
    close_fd: Sys,
    close_dup: Sys,
) -> (r: TestResult)
    ensures
        r == guard(ok(tmp, "t"), guard(ok(create, "c"), guard(ok(dup3, "d"), guard(ok(getfd, "g"),
            guard(that((getfd->Ok_0) & FD_CLOEXEC != 0, "ce"), guard(ok(close_fd, "cf"),
            guard(ok(close_dup, "cd"), passed()))))))),
{
    check_ok(tmp, "t")?;
    check_ok(create, "c")?;
    check_ok(dup3, "d")?;
    let fl = check_ok(getfd, "g")?;
    check(fl & FD_CLOEXEC != 0, "ce")?;
    check_ok(close_fd, "cf")?;
    check_ok(close_dup, "cd")?;
    Ok(())
}

/// A nonblocking exclusive `flock` on an unlocked file, then unlock.
pub fn edge_flock_ex_nb_ok(
    tmp: Sys,
    create: Sys,
    lock: Sys,
    unlock: Sys,
    close: Sys,
) -> (r: TestResult)
    ensures
        r == guard(ok(tmp, "t"), guard(ok(create, "c"), guard(ok(lock, "lk"),
            guard(ok(unlock, "un"), guard(ok(close, "c"), passed()))))),
{
    check_ok(tmp, "t")?;
    check_ok(create, "c")?;
    check_ok(lock, "lk")?;
    check_ok(unlock, "un")?;
    check_ok(close, "c")?;
    Ok(())
}

/// `membarrier(MEMBARRIER_CMD_QUERY)` succeeds.
pub fn edge_membarrier_query(query: Sys) -> (r: TestResult)
    ensures
        r == guard(ok(query, "q"), passed()),
{
    check_ok(query, "q")?;
    Ok(())
}

/// `personality(0xffffffff)` reads the persona.
pub fn edge_personality_query(query: Sys) -> (r: TestResult)
    ensures
        r == guard(ok(query, "p"), passed()),
{
    check_ok(query, "p")?;
    Ok(())
}

/// `capget` with the version 3 header succeeds.
pub fn edge_capget(capget: Sys) -> (r: TestResult)
    ensures
        r == guard(ok(capget, "c"), passed()),
{
    check_ok(capget, "c")?;
    Ok(())
}

/// `sched_yield` succeeds.
pub fn edge_sched_yield(yield_: Sys) -> (r: TestResult)
    ensures
        r == guard(ok(yield_, "y"), passed()),
{
    check_ok(yield_, "y")?;
    Ok(())
}

/// `getcpu` reports a CPU number below 4096.
pub fn edge_getcpu(getcpu: Sys, cpu: u32) -> (r: TestResult)
    ensures
        r == guard(ok(getcpu, "g"), guard(that(cpu < 4096, "cpu"), passed())),
{
    check_ok(getcpu, "g")?;
    check(cpu < 4096, "cpu")?;
    Ok(())
}

/// `kcmp(KCMP_FILE)` of a descriptor with itself reports equal (0), or is
/// unsupported.
pub fn edge_kcmp_self_fd(tmp: Sys, create: Sys, kcmp: SysVal, close: Sys) -> (r: TestResult)
    ensures
        r == guard(ok(tmp, "t"), guard(ok(create, "c"),
            guard(that(kcmp is Err || kcmp->Ok_0 == 0, "kcmp"),
            guard(that(kcmp is Ok || is_soft(kcmp->Err_0), "kcmp e"),
            guard(ok(close, "c"), passed()))))),
{
    check_ok(tmp, "t")?;
    check_ok(create, "c")?;
    check(match kcmp { Ok(v) => v == 0, Err(_) => true }, "kcmp")?;
    check(match kcmp { Ok(_) => true, Err(e) => soft(e) }, "kcmp e")?;
    check_ok(close, "c")?;
    Ok(())
}

/// After writing two bytes, `lseek(0, SEEK_END)` is at offset 2.
pub fn edge_lseek_end_zero(
    tmp: Sys,
    create: Sys,
    write: Sys,
    seek: SysVal,
    close: Sys,
) -> (r: TestResult)
    ensures
        r == guard(ok(tmp, "t"), guard(ok(create, "c"), guard(ok(write, "w"), guard(ok(seek, "e"),
            guard(that((seek->Ok_0) == 2, "end"), guard(ok(close, "c"), passed())))))),
{
    check_ok(tmp, "t")?;
    check_ok(create, "c")?;
    check_ok(write, "w")?;
    let pos = check_ok(seek, "e")?;
    check(pos == 2, "end")?;
    check_ok(close, "c")?;
    Ok(())
}

/// From offset 0, `lseek(2, SEEK_CUR)` lands at offset 2.
pub fn edge_lseek_cur_forward(
    tmp: Sys,
    create: Sys,
    write: Sys,
    rewind: Sys,
    seek: SysVal,
    close: Sys,
) -> (r: TestResult)
    ensures
        r == guard(ok(tmp, "t"), guard(ok(create, "c"), guard(ok(write, "w"),
            guard(ok(rewind, "s"), guard(ok(seek, "c"), guard(that((seek->Ok_0) == 2, "pos"),
            guard(ok(close, "c"), passed()))))))),
{
    check_ok(tmp, "t")?;
    check_ok(create, "c")?;
    check_ok(write, "w")?;
    check_ok(rewind, "s")?;
    let pos = check_ok(seek, "c")?;
    check(pos == 2, "pos")?;
    check_ok(close, "c")?;
    Ok(())
}

/// `F_SETFL` with `O_APPEND` added shows in the next `F_GETFL`.
pub fn edge_fcntl_setfl_append(
    tmp: Sys,
    create: Sys,
    getfl: Sys,
    setfl: Sys,
    getfl2: SysVal,
    close: Sys,
) -> (r: TestResult)
    ensures
        r == guard(ok(tmp, "t"), guard(ok(create, "c"), guard(ok(getfl, "g"), guard(ok(setfl, "s"),
            guard(ok(getfl2, "g2"), guard(that((getfl2->Ok_0) & O_APPEND != 0, "ap"),
            guard(ok(close, "c"), passed()))))))),
{
    check_ok(tmp, "t")?;
    check_ok(create, "c")?;
    check_ok(getfl, "g")?;
    check_ok(setfl, "s")?;
    let fl2 = check_ok(getfl2, "g2")?;
    check(fl2 & O_APPEND != 0, "ap")?;
    check_ok(close, "c")?;
    Ok(())
}

/// After `F_SETFL` adds `O_NONBLOCK`, reading an empty pipe fails with
/// `EAGAIN`.
pub fn edge_fcntl_setfl_nonblock_pipe(
    pipe: Sys,
    getfl: Sys,
    setfl: Sys,
    read: SysVal,
    close_r: Sys,
    close_w: Sys,
) -> (r: TestResult)
    ensures
        r == guard(ok(pipe, "p"), guard(ok(getfl, "g"), guard(ok(setfl, "s"),
            guard(errs(read, EAGAIN, "e"), guard(ok(close_r, "r"),
            guard(ok(close_w, "w"), passed())))))),
{
    check_ok(pipe, "p")?;
    check_ok(getfl, "g")?;
    check_ok(setfl, "s")?;
    check_err(read, EAGAIN, "e")?;
    check_ok(close_r, "r")?;
    check_ok(close_w, "w")?;
    Ok(())
}

/// `sendfile` of a 64-byte file into a pipe moves 64 bytes.
pub fn edge_sendfile_64(
    tmp: Sys,
    setup: TestResult,
    open_w: Sys,
    write: Sys,
    close_w: Sys,
    open_in: Sys,
    pipe: Sys,
    sendfile: SysVal,
    close_pw: Sys,
    close_in: Sys,
    close_pr: Sys,
) -> (r: TestResult)
    ensures
        r == guard(ok(tmp, "t"), guard(nested(setup), guard(ok(open_w, "w"), guard(ok(write, "wr"),
            guard(ok(close_w, "cw"), guard(ok(open_in, "in"), guard(ok(pipe, "p"),
            guard(ok(sendfile, "sf"), guard(that((sendfile->Ok_0) == 64, "n"),
            guard(ok(close_pw, "cw2"), guard(ok(close_in, "ci"),
            guard(ok(close_pr, "cr"), passed())))))))))))),
{
    check_ok(tmp, "t")?;
    setup?;
    check_ok(open_w, "w")?;
    check_ok(write, "wr")?;
    check_ok(close_w, "cw")?;
    check_ok(open_in, "in")?;
    check_ok(pipe, "p")?;
    let n = check_ok(sendfile, "sf")?;
    check(n == 64, "n")?;
    check_ok(close_pw, "cw2")?;
    check_ok(close_in, "ci")?;
    check_ok(close_pr, "cr")?;
    Ok(())
}

/// A four-page anonymous mapping, written at both ends, then removed.
pub fn edge_mmap_16k(mmap: Sys, munmap: Sys) -> (r: TestResult)
    ensures
        r == guard(ok(mmap, "m"), guard(ok(munmap, "u"), passed())),
{
    check_ok(mmap, "m")?;
    check_ok(munmap, "u")?;
    Ok(())
}

/// `waitid(P_PID, WEXITED)` reaps an exited child.
pub fn edge_waitid_exited_status(fork: Sys, waitid: Sys) -> (r: TestResult)
    ensures
        r == guard(ok(fork, "f"), guard(ok(waitid, "wi"), passed())),
{
    check_ok(fork, "f")?;
    check_ok(waitid, "wi")?;
    Ok(())
}

/// A child that starts a new session exits 0 (see
/// `setsid_child_exit_code`).
pub fn edge_setsid_child_leader(fork: Sys, wait: Sys, status: i32) -> (r: TestResult)
    ensures
        r == guard(ok(fork, "f"), guard(ok(wait, "w"),
            guard(that(spec_exit_code(status) == 0, "ok"), passed()))),
{
    check_ok(fork, "f")?;
    check_ok(wait, "w")?;
    check(wexitstatus(status) == 0, "ok")?;
    Ok(())
}

/// After `PR_SET_NO_NEW_PRIVS`, `PR_GET_NO_NEW_PRIVS` reads 1.
pub fn edge_prctl_no_new_privs(set: Sys, get: SysVal) -> (r: TestResult)
    ensures
        r == guard(ok(set, "set"), guard(ok(get, "get"),
            guard(that((get->Ok_0) == 1, "nnp"), passed()))),
{
    check_ok(set, "set")?;
    let v = check_ok(get, "get")?;
    check(v == 1, "nnp")?;
    Ok(())
}

/// `mlock` of an anonymous page succeeds, or is refused as unsupported or
/// with `EAGAIN`.
pub fn edge_mlock_soft(mmap: Sys, mlock: Sys, munmap: Sys) -> (r: TestResult)
    ensures
        r == guard(ok(mmap, "m"),
            guard(that(mlock is Ok || is_soft(mlock->Err_0) || mlock->Err_0.0 == EAGAIN, "mlock"),
            guard(ok(munmap, "u"), passed()))),
{
    check_ok(mmap, "m")?;
    check(match mlock { Ok(_) => true, Err(e) => soft(e) || e.0 == EAGAIN }, "mlock")?;
    check_ok(munmap, "u")?;
    Ok(())
}

/// Setting a zero `ITIMER_REAL` succeeds.
pub fn edge_itimer_disarm(set: Sys) -> (r: TestResult)
    ensures
        r == guard(ok(set, "clr"), passed()),
{
    check_ok(set, "clr")?;
    Ok(())
}

/// After `close_range` over one descriptor, closing it again fails with
/// `EBADF`; if `close_range` is missing (`ENOSYS`, `EINVAL`) the descriptor
/// still closes.
pub fn edge_close_range_soft(
    tmp: Sys,
    create: Sys,
    dup: Sys,
    close_range: Sys,
    close_dup: Sys,
    close_fd: Sys,
) -> (r: TestResult)
    ensures
        r == guard(ok(tmp, "t"), guard(ok(create, "c"), guard(ok(dup, "d"),
            guard(that(close_range is Ok || fails_with(close_range, seq![ENOSYS, EINVAL]), "cr"),
            guard(only_if(close_range is Ok, errs(close_dup, EBADF, "gone")),
            guard(only_if(close_range is Err, ok(close_dup, "cd")),
            guard(ok(close_fd, "cf"), passed()))))))),
{
    check_ok(tmp, "t")?;
    check_ok(create, "c")?;
    check_ok(dup, "d")?;
    check(close_range.is_ok() || failed_with(&close_range, &[ENOSYS, EINVAL]), "cr")?;
    if close_range.is_ok() {
        check_err(close_dup, EBADF, "gone")?;
    }
    if close_range.is_err() {
        check_ok(close_dup, "cd")?;
    }
    check_ok(close_fd, "cf")?;
    Ok(())
}

/// The calls `edge_close_range_soft` makes besides its checks: when
/// `close_range` fails other than with ENOSYS or EINVAL, it closes the copy
/// `d` and the file `fd` before the test fails.
pub fn edge_close_range_cleanup(d: i64, fd: i64, close_range: Sys) -> (acts: Vec<Act>)
    ensures
        acts@ == (if close_range is Err && !(close_range->Err_0.0 == ENOSYS || close_range->Err_0.0 == EINVAL) { seq![Act::Close(d), Act::Close(fd)] } else { Seq::<Act>::empty() }),
{
    if match close_range { Err(e) => !(e.0 == ENOSYS || e.0 == EINVAL), Ok(_) => false } {
        vec![Act::Close(d), Act::Close(fd)]
    } else {
        vec![]
    }
}

/// A new file descriptor has `FD_CLOEXEC` clear.
pub fn edge_fcntl_getfd_zero(tmp: Sys, create: Sys, getfd: SysVal, close: Sys) -> (r: TestResult)
    ensures
        r == guard(ok(tmp, "t"), guard(ok(create, "c"), guard(ok(getfd, "g"),
            guard(that((getfd->Ok_0) & FD_CLOEXEC == 0, "no ce"),
            guard(ok(close, "c"), passed()))))),
{
    check_ok(tmp, "t")?;
    check_ok(create, "c")?;
    let flags = check_ok(getfd, "g")?;
    check(flags & FD_CLOEXEC == 0, "no ce")?;
    check_ok(close, "c")?;
    Ok(())
}

/// `F_SETFD(FD_CLOEXEC)` shows in the next `F_GETFD`.
pub fn edge_fcntl_setfd_cloexec(
    tmp: Sys,
    create: Sys,
    setfd: Sys,
    getfd: SysVal,
    close: Sys,
) -> (r: TestResult)
    ensures
        r == guard(ok(tmp, "t"), guard(ok(create, "c"), guard(ok(setfd, "s"), guard(ok(getfd, "g"),
            guard(that((getfd->Ok_0) & FD_CLOEXEC != 0, "ce"), guard(ok(close, "c"), passed())))))),
{
    check_ok(tmp, "t")?;
    check_ok(create, "c")?;
    check_ok(setfd, "s")?;
    let flags = check_ok(getfd, "g")?;
    check(flags & FD_CLOEXEC != 0, "ce")?;
    check_ok(close, "c")?;
    Ok(())
}

/// `pread` of two bytes at offset 1 of "ABCD" gives "BC".
pub fn edge_pread_offset_1(
    tmp: Sys,
    create: Sys,
    write: Sys,
    pread: SysVal,
    b: [u8; 2],
    close: Sys,
) -> (r: TestResult)
    ensures
        r == guard(ok(tmp, "t"), guard(ok(create, "c"), guard(ok(write, "w"), guard(ok(pread, "r"),
            guard(that((pread->Ok_0) == 2, "n"), guard(that(b@ == "BC".spec_bytes(), "d"),
            guard(ok(close, "c"), passed()))))))),
{
    check_ok(tmp, "t")?;
    check_ok(create, "c")?;
    check_ok(write, "w")?;
    let n = check_ok(pread, "r")?;
    check(n == 2, "n")?;
    check(bytes_eq(&b, "BC".as_bytes()), "d")?;
    check_ok(close, "c")?;
    Ok(())
}

/// `pwrite` of "ZZ" at offset 2 of an empty file reads back at bytes 2..4.
pub fn edge_pwrite_offset_2(
    tmp: Sys,
    create: Sys,
    pwrite: Sys,
    pread: Sys,
    b: [u8; 4],
    close: Sys,
) -> (r: TestResult)
    ensures
        r == guard(ok(tmp, "t"), guard(ok(create, "c"), guard(ok(pwrite, "pw"),
            guard(ok(pread, "r"), guard(that(b@.subrange(2, 4) == "ZZ".spec_bytes(), "d"),
            guard(ok(close, "c"), passed())))))),
{
    check_ok(tmp, "t")?;
    check_ok(create, "c")?;
    check_ok(pwrite, "pw")?;
    check_ok(pread, "r")?;
    check(bytes_eq(&b[2..4], "ZZ".as_bytes()), "d")?;
    check_ok(close, "c")?;
    Ok(())
}

/// `ftruncate` to 0 empties a written file.
pub fn edge_ftruncate_zero(
    tmp: Sys,
    create: Sys,
    write: Sys,
    truncate: Sys,
    size: SysVal,
    close: Sys,
) -> (r: TestResult)
    ensures
        r == guard(ok(tmp, "t"), guard(ok(create, "c"), guard(ok(write, "w"),
            guard(ok(truncate, "tr"), guard(ok(size, "st"), guard(that((size->Ok_0) == 0, "sz"),
            guard(ok(close, "c"), passed()))))))),
{
    check_ok(tmp, "t")?;
    check_ok(create, "c")?;
    check_ok(write, "w")?;
    check_ok(truncate, "tr")?;
    let sz = check_ok(size, "st")?;
    check(sz == 0, "sz")?;
    check_ok(close, "c")?;
    Ok(())
}

/// `fsync` of an empty file.
pub fn edge_fsync_empty(tmp: Sys, create: Sys, fsync: Sys, close: Sys) -> (r: TestResult)
    ensures
        r == guard(ok(tmp, "t"), guard(ok(create, "c"), guard(ok(fsync, "fs"),
            guard(ok(close, "c"), passed())))),
{
    check_ok(tmp, "t")?;
    check_ok(create, "c")?;
    check_ok(fsync, "fs")?;
    check_ok(close, "c")?;
    Ok(())
}

/// `fdatasync` after a write.
pub fn edge_fdatasync_write(
    tmp: Sys,
    create: Sys,
    write: Sys,
    fdatasync: Sys,
    close: Sys,
) -> (r: TestResult)
    ensures
        r == guard(ok(tmp, "t"), guard(ok(create, "c"), guard(ok(write, "w"),
            guard(ok(fdatasync, "fds"), guard(ok(close, "c"), passed()))))),
{
    check_ok(tmp, "t")?;
    check_ok(create, "c")?;
    check_ok(write, "w")?;
    check_ok(fdatasync, "fds")?;
    check_ok(close, "c")?;
    Ok(())
}

/// `pipe2(O_CLOEXEC)` gives a read end with `FD_CLOEXEC` set.
pub fn edge_pipe2_cloexec(pipe: Sys, getfd: SysVal, close_r: Sys, close_w: Sys) -> (r: TestResult)
    ensures
        r == guard(ok(pipe, "p"), guard(ok(getfd, "g"),
            guard(that((getfd->Ok_0) & FD_CLOEXEC != 0, "ce"), guard(ok(close_r, "r"),
            guard(ok(close_w, "w"), passed()))))),
{
    check_ok(pipe, "p")?;
    let fl = check_ok(getfd, "g")?;
    check(fl & FD_CLOEXEC != 0, "ce")?;
    check_ok(close_r, "r")?;
    check_ok(close_w, "w")?;
    Ok(())
}

/// A byte sent on one end of a Unix stream pair is received on the other.
pub fn edge_socketpair_stream(
    pair: Sys,
    send: Sys,
    recv: SysVal,
    close_a: Sys,
    close_b: Sys,
) -> (r: TestResult)
    ensures
        r == guard(ok(pair, "sp"), guard(ok(send, "s"), guard(ok(recv, "r"),
            guard(that((recv->Ok_0) == 1, "n"), guard(ok(close_a, "a"),
            guard(ok(close_b, "b"), passed())))))),
{
    check_ok(pair, "sp")?;
    check_ok(send, "s")?;
    let n = check_ok(recv, "r")?;
    check(n == 1, "n")?;
    check_ok(close_a, "a")?;
    check_ok(close_b, "b")?;
    Ok(())
}

/// A pipe read end added to and removed from an epoll set.
pub fn edge_epoll_create_add_del(
    pipe: Sys,
    create: Sys,
    add: Sys,
    del: Sys,
    close_ep: Sys,
    close_r: Sys,
    close_w: Sys,
) -> (r: TestResult)
    ensures
        r == guard(ok(pipe, "p"), guard(ok(create, "ep"), guard(ok(add, "add"),
            guard(ok(del, "del"), guard(ok(close_ep, "ep"), guard(ok(close_r, "r"),
            guard(ok(close_w, "w"), passed()))))))),
{
    check_ok(pipe, "p")?;
    check_ok(create, "ep")?;
    check_ok(add, "add")?;
    check_ok(del, "del")?;
    check_ok(close_ep, "ep")?;
    check_ok(close_r, "r")?;
    check_ok(close_w, "w")?;
    Ok(())
}

/// `CLOCK_THREAD_CPUTIME_ID` reads a non-negative time, or is unsupported.
pub fn edge_clock_thread_cputime(t: Result<Timespec, Errno>) -> (r: TestResult)
    ensures
        r == guard(that(t is Ok || is_soft(t->Err_0), "tcpu"),
            guard(only_if(t is Ok, that((t->Ok_0).tv_sec >= 0, "sec")), passed())),
{
    check(match t { Ok(_) => true, Err(e) => soft(e) }, "tcpu")?;
    if let Ok(ts) = t {
        check(ts.tv_sec >= 0, "sec")?;
    }
    Ok(())
}

/// `CLOCK_REALTIME_COARSE` reads a positive time, or is unsupported.
pub fn edge_clock_realtime_coarse(t: Result<Timespec, Errno>) -> (r: TestResult)
    ensures
        r == guard(that(t is Ok || is_soft(t->Err_0), "coarse"),
            guard(only_if(t is Ok, that((t->Ok_0).tv_sec > 0, "sec")), passed())),
{
    check(match t { Ok(_) => true, Err(e) => soft(e) }, "coarse")?;
    if let Ok(ts) = t {
        check(ts.tv_sec > 0, "sec")?;
    }
    Ok(())
}

/// `gettimeofday` reads a time after September 2020.
pub fn edge_gettimeofday_positive(tv: Result<Timespec, Errno>) -> (r: TestResult)
    ensures
        r == guard(ok(tv, "g"), guard(that((tv->Ok_0).tv_sec > 1_600_000_000, "sec"), passed())),
{
    let t = check_ok(tv, "g")?;
    check(t.tv_sec > 1_600_000_000, "sec")?;
    Ok(())
}

/// The affinity mask names at least one CPU, or the call is unsupported.
pub fn edge_sched_getaffinity_mask(get: Sys, mask: [u8; 64]) -> (r: TestResult)
    ensures
        r == guard(that(get is Ok || is_soft(get->Err_0), "aff"),
            guard(only_if(get is Ok, that(exists|i: int| 0 <= i < 64 && mask@[i] != 0, "bits")), passed())),
{
    check(match get { Ok(_) => true, Err(e) => soft(e) }, "aff")?;
    if get.is_ok() {
        check(any_nonzero(&mask), "bits")?;
    }
    Ok(())
}

/// The own nice value lies in -20..=19.
pub fn edge_getpriority_self(get: SysVal) -> (r: TestResult)
    ensures
        r == guard(ok(get, "p"),
            guard(that((get->Ok_0) >= -20 && (get->Ok_0) <= 19, "rng"), passed())),
{
    let p = check_ok(get, "p")?;
    check(p >= -20 && p <= 19, "rng")?;
    Ok(())
}

/// Bytes written through a duplicate read back through the original.
pub fn edge_dup_then_write(
    tmp: Sys,
    create: Sys,
    dup: Sys,
    write: Sys,
    pread: Sys,
    b: [u8; 2],
    close_fd: Sys,
    close_dup: Sys,
) -> (r: TestResult)
    ensures
        r == guard(ok(tmp, "t"), guard(ok(create, "c"), guard(ok(dup, "d"), guard(ok(write, "w"),
            guard(ok(pread, "r"), guard(that(b@ == "hi".spec_bytes(), "d"),
            guard(ok(close_fd, "cf"), guard(ok(close_dup, "cd"), passed())))))))),
{
    check_ok(tmp, "t")?;
    check_ok(create, "c")?;
    check_ok(dup, "d")?;
    check_ok(write, "w")?;
    check_ok(pread, "r")?;
    check(bytes_eq(&b, "hi".as_bytes()), "d")?;
    check_ok(close_fd, "cf")?;
    check_ok(close_dup, "cd")?;
    Ok(())
}

/// An anonymous page made read-only with `mprotect`.
pub fn edge_mprotect_read_only(mmap: Sys, mprotect: Sys, munmap: Sys) -> (r: TestResult)
    ensures
        r == guard(ok(mmap, "m"), guard(ok(mprotect, "ro"), guard(ok(munmap, "u"), passed()))),
{
    check_ok(mmap, "m")?;
    check_ok(mprotect, "ro")?;
    check_ok(munmap, "u")?;
    Ok(())
}

/// `msync(MS_ASYNC)` of a written shared file mapping.
pub fn edge_msync_async_soft(
    tmp: Sys,
    create: Sys,
    truncate: Sys,
    mmap: Sys,
    msync: Sys,
    munmap: Sys,
    close: Sys,
) -> (r: TestResult)
    ensures
        r == guard(ok(tmp, "t"), guard(ok(create, "c"), guard(ok(truncate, "tr"),
            guard(ok(mmap, "m"), guard(ok(msync, "ms"), guard(ok(munmap, "u"),
            guard(ok(close, "c"), passed()))))))),
{
    check_ok(tmp, "t")?;
    check_ok(create, "c")?;
    check_ok(truncate, "tr")?;
    check_ok(mmap, "m")?;
    check_ok(msync, "ms")?;
    check_ok(munmap, "u")?;
    check_ok(close, "c")?;
    Ok(())
}

/// A child exiting with 1 is reaped with exit code 1.
pub fn edge_fork_exit_1(fork: Sys, wait: Sys, status: i32) -> (r: TestResult)
    ensures
        r == guard(ok(fork, "f"), guard(ok(wait, "w"),
            guard(that(spec_exit_code(status) == 1, "st"), passed()))),
{
    check_ok(fork, "f")?;
    check_ok(wait, "w")?;
    check(wexitstatus(status) == 1, "st")?;
    Ok(())
}

/// The thread id is positive.
pub fn edge_gettid_positive(tid: i64) -> (r: TestResult)
    ensures
        r == guard(that(tid > 0, "tid"), passed()),
{
    check(tid > 0, "tid")?;
    Ok(())
}

/// The parent process id is non-negative.
pub fn edge_getppid_nonneg(ppid: i64) -> (r: TestResult)
    ensures
        r == guard(that(ppid >= 0, "ppid"), passed()),
{
    check(ppid >= 0, "ppid")?;
    Ok(())
}

/// Real and effective user and group ids agree.
pub fn edge_uid_gid_match(uid: i64, euid: i64, gid: i64, egid: i64) -> (r: TestResult)
    ensures
        r == guard(that(uid == euid, "uid"), guard(that(gid == egid, "gid"), passed())),
{
    check(uid == euid, "uid")?;
    check(gid == egid, "gid")?;
    Ok(())
}

/// `openat(O_CREAT | O_EXCL)` relative to a directory descriptor.
pub fn edge_openat_creat(
    tmp: Sys,
    open_dir: Sys,
    openat: Sys,
    close_fd: Sys,
    close_dir: Sys,
) -> (r: TestResult)
    ensures
        r == guard(ok(tmp, "t"), guard(ok(open_dir, "d"), guard(ok(openat, "o"),
            guard(ok(close_fd, "cf"), guard(ok(close_dir, "cd"), passed()))))),
{
    check_ok(tmp, "t")?;
    check_ok(open_dir, "d")?;
    check_ok(openat, "o")?;
    check_ok(close_fd, "cf")?;
    check_ok(close_dir, "cd")?;
    Ok(())
}

/// `access(F_OK)` on a created file.
pub fn edge_access_f_ok(tmp: Sys, setup: TestResult, access: Sys) -> (r: TestResult)
    ensures
        r == guard(ok(tmp, "t"), guard(nested(setup), guard(ok(access, "fok"), passed()))),
{
    check_ok(tmp, "t")?;
    setup?;
    check_ok(access, "fok")?;
    Ok(())
}

/// `stat` of a file after writing five bytes reports size 5.
pub fn edge_stat_size_after_write(
    tmp: Sys,
    setup: TestResult,
    open: Sys,
    write: Sys,
    close: Sys,
    stat: SysVal,
) -> (r: TestResult)
    ensures
        r == guard(ok(tmp, "t"), guard(nested(setup), guard(ok(open, "o"), guard(ok(write, "w"),
            guard(ok(close, "c"), guard(ok(stat, "st"),
            guard(that((stat->Ok_0) == 5, "sz"), passed()))))))),
{
    check_ok(tmp, "t")?;
    setup?;
    check_ok(open, "o")?;
    check_ok(write, "w")?;
    check_ok(close, "c")?;
    let sz = check_ok(stat, "st")?;
    check(sz == 5, "sz")?;
    Ok(())
}

/// Exit code of the child of `edge_getpgid_after_setpgid_child`: 0 when it
/// made itself a group leader (`setpgid(0, me)`) and `getpgid(0)` then
/// reports `me`, else 1.
pub fn getpgid_child_exit_code(me: i64, setpgid: Sys, getpgid: SysVal) -> (code: i32)
    ensures
        code == (if setpgid is Ok && getpgid == Ok::<i64, Errno>(me) { 0i32 } else { 1i32 }),
{
    if setpgid.is_ok() {
        match getpgid {
            Ok(g) => {
                if g == me {
                    return 0;
                }
            },
            Err(_) => {},
        }
    }
    1
}

/// Exit code of the child of `edge_setsid_child_leader`: 0 when `setsid`
/// returned the child's own pid, else 1.
pub fn setsid_child_exit_code(me: i64, setsid: SysVal) -> (code: i32)
    ensures
        code == (if setsid == Ok::<i64, Errno>(me) { 0i32 } else { 1i32 }),
{
    match setsid {
        Ok(s) => if s == me { 0 } else { 1 },
        Err(_) => 1,
    }
}

} // verus!
