//! Miscellaneous calls in depth: `uname`, `getrandom`, `ioctl`, `dup`,
//! `close_range`, `kcmp`, `process_vm_*`, `flock` and scheduling queries.

use vstd::prelude::*;
use crate::plan::Act;
use vstd::string::StringSliceAdditionalSpecFns;
use crate::abi::FD_CLOEXEC;
use crate::bytes::{any_nonzero, bytes_eq};
use crate::errno::{EAGAIN, EBADF, EINVAL, ENOSYS, ENOTTY, EPERM, EWOULDBLOCK};
use crate::harness::{
    Sys, SysVal, TestResult, all_ok, check, check_err, check_ok, errs, failed_with, fails_with,
    guard, nested, ok, only_if, passed, spec_all_ok, that,
};
use crate::misc::{cstr, cstr_prefix};
use crate::sched::SCHED_OTHER;
use crate::spawn_ipc::{prefix_eq, starts_with};

verus! {

/// The system name begins with "Linux".
pub fn misc_uname_sysname(uname: Sys, sysname: &[u8]) -> (r: TestResult)
    ensures
        r == guard(ok(uname, "uname"),
            guard(that(starts_with(cstr(sysname@), "Linux".spec_bytes()), "sys"), passed())),
{
    check_ok(uname, "uname")?;
    check(prefix_eq(cstr_prefix(sysname), "Linux".as_bytes()), "sys")?;
    Ok(())
}

/// The node name is not empty.
pub fn misc_uname_nodename(uname: Sys, nodename: &[u8]) -> (r: TestResult)
    ensures
        r == guard(ok(uname, "uname"), guard(that(cstr(nodename@).len() != 0, "node"), passed())),
{
    check_ok(uname, "uname")?;
    check(cstr_prefix(nodename).len() != 0, "node")?;
    Ok(())
}

/// The release is not empty.
pub fn misc_uname_release(uname: Sys, release: &[u8]) -> (r: TestResult)
    ensures
        r == guard(ok(uname, "uname"), guard(that(cstr(release@).len() != 0, "rel"), passed())),
{
    check_ok(uname, "uname")?;
    check(cstr_prefix(release).len() != 0, "rel")?;
    Ok(())
}

/// The version is not empty.
pub fn misc_uname_version(uname: Sys, version: &[u8]) -> (r: TestResult)
    ensures
        r == guard(ok(uname, "uname"), guard(that(cstr(version@).len() != 0, "ver"), passed())),
{
    check_ok(uname, "uname")?;
    check(cstr_prefix(version).len() != 0, "ver")?;
    Ok(())
}

/// The machine name is not empty.
pub fn misc_uname_machine(uname: Sys, machine: &[u8]) -> (r: TestResult)
    ensures
        r == guard(ok(uname, "uname"), guard(that(cstr(machine@).len() != 0, "mach"), passed())),
{
    check_ok(uname, "uname")?;
    check(cstr_prefix(machine).len() != 0, "mach")?;
    Ok(())
}

/// A 16-byte draw fills all 16 bytes.
pub fn misc_getrandom_basic(gr: SysVal) -> (r: TestResult)
    ensures
        r == guard(ok(gr, "gr"), guard(that((gr->Ok_0) == 16, "n"), passed())),
{
    let n = check_ok(gr, "gr")?;
    check(n == 16, "n")?;
    Ok(())
}

/// `getrandom(GRND_NONBLOCK)` returns bytes, or fails with EAGAIN, ENOSYS or
/// EINVAL.
pub fn misc_getrandom_nonblock_soft(gr: SysVal) -> (r: TestResult)
    ensures
        r == guard(that(gr is Ok ==> gr->Ok_0 > 0, "n"),
            guard(that(gr is Ok || fails_with(gr, seq![EAGAIN, ENOSYS, EINVAL]), "grnd nonblock"), passed())),
{
    check(match gr { Ok(n) => n > 0, Err(_) => true }, "n")?;
    check(gr.is_ok() || failed_with(&gr, &[EAGAIN, ENOSYS, EINVAL]), "grnd nonblock")?;
    Ok(())
}

/// `getrandom(GRND_RANDOM)` returns bytes, or fails with EAGAIN, ENOSYS or
/// EINVAL.
pub fn misc_getrandom_random_soft(gr: SysVal) -> (r: TestResult)
    ensures
        r == guard(that(gr is Ok ==> gr->Ok_0 > 0, "n"),
            guard(that(gr is Ok || fails_with(gr, seq![EAGAIN, ENOSYS, EINVAL]), "grnd random"), passed())),
{
    check(match gr { Ok(n) => n > 0, Err(_) => true }, "n")?;
    check(gr.is_ok() || failed_with(&gr, &[EAGAIN, ENOSYS, EINVAL]), "grnd random")?;
    Ok(())
}

/// `TIOCGWINSZ` on a regular file fails with ENOTTY or EINVAL (or succeeds).
pub fn misc_ioctl_tiocgwinsz_enotty(
    tmp: Sys,
    create: Sys,
    ioctl: Sys,
    close: Sys,
) -> (r: TestResult)
    ensures
        r == guard(ok(tmp, "tempdir"), guard(ok(create, "create"),
            guard(that(ioctl is Ok || fails_with(ioctl, seq![ENOTTY, EINVAL]), "tiocgwinsz"),
            guard(ok(close, "c"), passed())))),
{
    check_ok(tmp, "tempdir")?;
    check_ok(create, "create")?;
    check(ioctl.is_ok() || failed_with(&ioctl, &[ENOTTY, EINVAL]), "tiocgwinsz")?;
    check_ok(close, "c")?;
    Ok(())
}

/// The call `misc_ioctl_tiocgwinsz_enotty` makes besides its checks: when
/// `TIOCGWINSZ` failed other than with ENOTTY or EINVAL, it closes the file
/// before the test fails.
pub fn tiocgwinsz_cleanup(fd: i64, ioctl: Sys) -> (acts: Vec<Act>)
    ensures
        acts@ == (if ioctl is Err && !fails_with(ioctl, seq![ENOTTY, EINVAL]) { seq![Act::Close(fd)] } else {
            Seq::<Act>::empty()
        }),
{
    if ioctl.is_err() && !failed_with(&ioctl, &[ENOTTY, EINVAL]) {
        vec![Act::Close(fd)]
    } else {
        vec![]
    }
}

/// `dup` returns a different descriptor.
pub fn misc_dup_basic(
    tmp: Sys,
    create: SysVal,
    dup: SysVal,
    close: Sys,
    close_dup: Sys,
) -> (r: TestResult)
    ensures
        r == guard(ok(tmp, "tempdir"), guard(ok(create, "create"), guard(ok(dup, "dup"),
            guard(that((dup->Ok_0) != (create->Ok_0), "diff"), guard(ok(close, "c"),
            guard(ok(close_dup, "cd"), passed())))))),
{
    check_ok(tmp, "tempdir")?;
    let fd = check_ok(create, "create")?;
    let d = check_ok(dup, "dup")?;
    check(d != fd, "diff")?;
    check_ok(close, "c")?;
    check_ok(close_dup, "cd")?;
    Ok(())
}

/// `dup2` onto descriptor 80 returns 80.
pub fn misc_dup2_to_high(
    tmp: Sys,
    create: Sys,
    dup2: SysVal,
    close: Sys,
    close_dup: Sys,
) -> (r: TestResult)
    ensures
        r == guard(ok(tmp, "tempdir"), guard(ok(create, "create"), guard(ok(dup2, "dup2"),
            guard(that((dup2->Ok_0) == 80, "fd"), guard(ok(close, "c"),
            guard(ok(close_dup, "cd"), passed())))))),
{
    check_ok(tmp, "tempdir")?;
    check_ok(create, "create")?;
    let d = check_ok(dup2, "dup2")?;
    check(d == 80, "fd")?;
    check_ok(close, "c")?;
    check_ok(close_dup, "cd")?;
    Ok(())
}

/// `dup3(O_CLOEXEC)` sets close-on-exec on the copy.
pub fn misc_dup3_cloexec(
    tmp: Sys,
    create: Sys,
    dup3: Sys,
    getfd: SysVal,
    close: Sys,
    close_dup: Sys,
) -> (r: TestResult)
    ensures
        r == guard(ok(tmp, "tempdir"), guard(ok(create, "create"), guard(ok(dup3, "dup3"),
            guard(ok(getfd, "fd"), guard(that((getfd->Ok_0) & FD_CLOEXEC != 0, "cloexec"),
            guard(ok(close, "c"), guard(ok(close_dup, "cd"), passed()))))))),
{
    check_ok(tmp, "tempdir")?;
    check_ok(create, "create")?;
    check_ok(dup3, "dup3")?;
    let fl = check_ok(getfd, "fd")?;
    check(fl & FD_CLOEXEC != 0, "cloexec")?;
    check_ok(close, "c")?;
    check_ok(close_dup, "cd")?;
    Ok(())
}

/// `dup(-1)` fails with EBADF.
pub fn misc_dup_ebadf(dup: Sys) -> (r: TestResult)
    ensures
        r == guard(errs(dup, EBADF, "dup"), passed()),
{
    check_err(dup, EBADF, "dup")?;
    Ok(())
}

/// `dup2(-1, 10)` fails with EBADF.
pub fn misc_dup2_ebadf(dup2: Sys) -> (r: TestResult)
    ensures
        r == guard(errs(dup2, EBADF, "dup2"), passed()),
{
    check_err(dup2, EBADF, "dup2")?;
    Ok(())
}

/// `close_range(CLOSE_RANGE_CLOEXEC)` over a copy sets close-on-exec, or
/// fails with ENOSYS or EINVAL.
pub fn misc_close_range_cloexec_soft(
    tmp: Sys,
    create: Sys,
    dup: Sys,
    close_range: Sys,
    getfd: SysVal,
    close_dup: Sys,
    close: Sys,
) -> (r: TestResult)
    ensures
        r == guard(ok(tmp, "tempdir"), guard(ok(create, "create"), guard(ok(dup, "dup"),
            guard(only_if(close_range is Ok, ok(getfd, "fd")),
            guard(only_if(close_range is Ok, that((getfd->Ok_0) & FD_CLOEXEC != 0, "cloexec")),
            guard(that(close_range is Ok || fails_with(close_range, seq![ENOSYS, EINVAL]), "close_range"),
            guard(ok(close_dup, "cd"), guard(ok(close, "c"), passed())))))))),
{
    check_ok(tmp, "tempdir")?;
    check_ok(create, "create")?;
    check_ok(dup, "dup")?;
    if close_range.is_ok() {
        let fl = check_ok(getfd, "fd")?;
        check(fl & FD_CLOEXEC != 0, "cloexec")?;
    }
    check(close_range.is_ok() || failed_with(&close_range, &[ENOSYS, EINVAL]), "close_range")?;
    check_ok(close_dup, "cd")?;
    check_ok(close, "c")?;
    Ok(())
}

/// `close_range` over a copy closes it (closing it again fails with EBADF),
/// or fails with ENOSYS or EINVAL.
pub fn misc_close_range_close_soft(
    tmp: Sys,
    create: Sys,
    dup: Sys,
    close_range: Sys,
    close_dup: Sys,
    close: Sys,
) -> (r: TestResult)
    ensures
        r == guard(ok(tmp, "tempdir"), guard(ok(create, "create"), guard(ok(dup, "dup"),
            guard(only_if(close_range is Ok, errs(close_dup, EBADF, "closed")),
            guard(that(close_range is Ok || fails_with(close_range, seq![ENOSYS, EINVAL]), "cr close"),
            guard(only_if(close_range is Err, ok(close_dup, "cd")),
            guard(ok(close, "c"), passed()))))))),
{
    check_ok(tmp, "tempdir")?;
    check_ok(create, "create")?;
    check_ok(dup, "dup")?;
    if close_range.is_ok() {
        check_err(close_dup, EBADF, "closed")?;
    }
    check(close_range.is_ok() || failed_with(&close_range, &[ENOSYS, EINVAL]), "cr close")?;
    if close_range.is_err() {
        check_ok(close_dup, "cd")?;
    }
    check_ok(close, "c")?;
    Ok(())
}

/// The calls `misc_close_range_cloexec_soft` and
/// `misc_close_range_close_soft` make besides their checks: when
/// `close_range` fails other than with ENOSYS or EINVAL, they close the copy
/// `d` and the file `fd` before the test fails.
pub fn misc_close_range_cleanup(d: i64, fd: i64, close_range: Sys) -> (acts: Vec<Act>)
    ensures
        acts@ == (if close_range is Err && !fails_with(close_range, seq![ENOSYS, EINVAL]) {
            seq![Act::Close(d), Act::Close(fd)]
        } else {
            Seq::<Act>::empty()
        }),
{
    if close_range.is_err() && !failed_with(&close_range, &[ENOSYS, EINVAL]) {
        vec![Act::Close(d), Act::Close(fd)]
    } else {
        vec![]
    }
}

/// `kcmp(KCMP_FILE)` of a descriptor with itself answers 0, or fails with
/// ENOSYS, EPERM or EINVAL.
pub fn misc_kcmp_same(
    tmp: Sys,
    path: TestResult,
    open: Sys,
    kcmp: SysVal,
    close: Sys,
) -> (r: TestResult)
    ensures
        r == guard(ok(tmp, "tempdir"), guard(nested(path), guard(ok(open, "open"),
            guard(that(kcmp is Ok ==> kcmp->Ok_0 == 0, "kcmp ne"),
            guard(that(kcmp is Ok || fails_with(kcmp, seq![ENOSYS, EPERM, EINVAL]), "kcmp"),
            guard(ok(close, "c"), passed())))))),
{
    check_ok(tmp, "tempdir")?;
    path?;
    check_ok(open, "open")?;
    check(match kcmp { Ok(v) => v == 0, Err(_) => true }, "kcmp ne")?;
    check(kcmp.is_ok() || failed_with(&kcmp, &[ENOSYS, EPERM, EINVAL]), "kcmp")?;
    check_ok(close, "c")?;
    Ok(())
}

/// `kcmp(KCMP_FILE)` of two different files answers nonzero, or fails with
/// ENOSYS, EPERM or EINVAL.
pub fn misc_kcmp_distinct_files(
    tmp: Sys,
    a: Sys,
    b: Sys,
    kcmp: SysVal,
    close_a: Sys,
    close_b: Sys,
) -> (r: TestResult)
    ensures
        r == guard(ok(tmp, "tempdir"), guard(ok(a, "a"), guard(ok(b, "b"),
            guard(that(kcmp is Ok ==> kcmp->Ok_0 != 0, "diff"),
            guard(that(kcmp is Ok || fails_with(kcmp, seq![ENOSYS, EPERM, EINVAL]), "kcmp2"),
            guard(ok(close_a, "ca"), guard(ok(close_b, "cb"), passed()))))))),
{
    check_ok(tmp, "tempdir")?;
    check_ok(a, "a")?;
    check_ok(b, "b")?;
    check(match kcmp { Ok(v) => v != 0, Err(_) => true }, "diff")?;
    check(kcmp.is_ok() || failed_with(&kcmp, &[ENOSYS, EPERM, EINVAL]), "kcmp2")?;
    check_ok(close_a, "ca")?;
    check_ok(close_b, "cb")?;
    Ok(())
}

/// `process_vm_readv` from this process copies [1, 2, 3, 4], or fails with
/// ENOSYS, EPERM or EINVAL.
pub fn misc_process_vm_readv_self(readv: SysVal, dst: &[u8]) -> (r: TestResult)
    ensures
        r == guard(only_if(readv is Ok, ok(readv, "n")),
            guard(only_if(readv is Ok, that((readv->Ok_0) == 4, "n")),
            guard(only_if(readv is Ok, that(dst@ == seq![1u8, 2, 3, 4], "d")),
            guard(that(readv is Ok || fails_with(readv, seq![ENOSYS, EPERM, EINVAL]), "vm_readv"), passed())))),
{
    if readv.is_ok() {
        let n = check_ok(readv, "n")?;
        check(n == 4, "n")?;
        check(bytes_eq(dst, &[1u8, 2, 3, 4]), "d")?;
    }
    check(readv.is_ok() || failed_with(&readv, &[ENOSYS, EPERM, EINVAL]), "vm_readv")?;
    Ok(())
}

/// `process_vm_writev` into this process copies [9, 8, 7, 6], or fails with
/// ENOSYS, EPERM or EINVAL.
pub fn misc_process_vm_writev_self(writev: SysVal, dst: &[u8]) -> (r: TestResult)
    ensures
        r == guard(only_if(writev is Ok, ok(writev, "n")),
            guard(only_if(writev is Ok, that((writev->Ok_0) == 4, "n")),
            guard(only_if(writev is Ok, that(dst@ == seq![9u8, 8, 7, 6], "d")),
            guard(that(writev is Ok || fails_with(writev, seq![ENOSYS, EPERM, EINVAL]), "vm_writev"), passed())))),
{
    if writev.is_ok() {
        let n = check_ok(writev, "n")?;
        check(n == 4, "n")?;
        check(bytes_eq(dst, &[9u8, 8, 7, 6]), "d")?;
    }
    check(writev.is_ok() || failed_with(&writev, &[ENOSYS, EPERM, EINVAL]), "vm_writev")?;
    Ok(())
}

/// `membarrier(MEMBARRIER_CMD_QUERY)` succeeds.
pub fn misc_membarrier_query(query: Sys) -> (r: TestResult)
    ensures
        r == guard(ok(query, "q"), passed()),
{
    check_ok(query, "q")?;
    Ok(())
}

/// Two queries of the personality agree.
pub fn misc_personality_query(p: SysVal, p2: SysVal) -> (r: TestResult)
    ensures
        r == guard(ok(p, "p"), guard(ok(p2, "p2"),
            guard(that((p->Ok_0) == (p2->Ok_0), "stable"), passed()))),
{
    let a = check_ok(p, "p")?;
    let b = check_ok(p2, "p2")?;
    check(a == b, "stable")?;
    Ok(())
}

/// `capget` with a version 3 header succeeds.
pub fn misc_capget_v3(capget: Sys) -> (r: TestResult)
    ensures
        r == guard(ok(capget, "capget"), passed()),
{
    check_ok(capget, "capget")?;
    Ok(())
}

/// `getcpu` reports a CPU below 4096, or fails with ENOSYS or EINVAL.
pub fn misc_getcpu_soft(getcpu: Sys, cpu: u32) -> (r: TestResult)
    ensures
        r == guard(only_if(getcpu is Ok, that(cpu < 4096, "cpu")),
            guard(that(getcpu is Ok || fails_with(getcpu, seq![ENOSYS, EINVAL]), "getcpu"), passed())),
{
    if getcpu.is_ok() {
        check(cpu < 4096, "cpu")?;
    }
    check(getcpu.is_ok() || failed_with(&getcpu, &[ENOSYS, EINVAL]), "getcpu")?;
    Ok(())
}

/// Eight `sched_yield` calls in a row succeed.
pub fn misc_sched_yield_many(yields: &[Sys]) -> (r: TestResult)
    ensures
        r == spec_all_ok(yields@, "yield"),
{
    all_ok(yields, "yield")
}

/// The affinity mask names some CPU, or the call fails with ENOSYS or EINVAL.
pub fn misc_sched_getaffinity(get: Sys, mask: &[u8]) -> (r: TestResult)
    ensures
        r ==
            guard(only_if(get is Ok, that(exists|i: int| 0 <= i < mask@.len() && mask@[i] != 0, "mask")),
            guard(that(get is Ok || fails_with(get, seq![ENOSYS, EINVAL]), "affinity"), passed())),
{
    if get.is_ok() {
        check(any_nonzero(mask), "mask")?;
    }
    check(get.is_ok() || failed_with(&get, &[ENOSYS, EINVAL]), "affinity")?;
    Ok(())
}

/// Setting the mask just read succeeds or fails with EINVAL, EPERM or
/// ENOSYS; nothing is checked when the mask cannot be read.
pub fn misc_sched_setaffinity_roundtrip_soft(get: Sys, set: Sys) -> (r: TestResult)
    ensures
        r ==
            guard(only_if(get is Ok, that(set is Ok || fails_with(set, seq![EINVAL, EPERM, ENOSYS]), "setaff")), passed()),
{
    if get.is_ok() {
        check(set.is_ok() || failed_with(&set, &[EINVAL, EPERM, ENOSYS]), "setaff")?;
    }
    Ok(())
}

/// An exclusive lock is taken and released.
pub fn misc_flock_ex_un(tmp: Sys, create: Sys, ex: Sys, un: Sys, close: Sys) -> (r: TestResult)
    ensures
        r == guard(ok(tmp, "tempdir"), guard(ok(create, "create"), guard(ok(ex, "ex"),
            guard(ok(un, "un"), guard(ok(close, "c"), passed()))))),
{
    check_ok(tmp, "tempdir")?;
    check_ok(create, "create")?;
    check_ok(ex, "ex")?;
    check_ok(un, "un")?;
    check_ok(close, "c")?;
    Ok(())
}

/// A shared lock is taken and released.
pub fn misc_flock_sh_un(tmp: Sys, create: Sys, sh: Sys, un: Sys, close: Sys) -> (r: TestResult)
    ensures
        r == guard(ok(tmp, "tempdir"), guard(ok(create, "create"), guard(ok(sh, "sh"),
            guard(ok(un, "un"), guard(ok(close, "c"), passed()))))),
{
    check_ok(tmp, "tempdir")?;
    check_ok(create, "create")?;
    check_ok(sh, "sh")?;
    check_ok(un, "un")?;
    check_ok(close, "c")?;
    Ok(())
}

/// A non-blocking exclusive lock is taken and released.
pub fn misc_flock_ex_nb(tmp: Sys, create: Sys, exnb: Sys, un: Sys, close: Sys) -> (r: TestResult)
    ensures
        r == guard(ok(tmp, "tempdir"), guard(ok(create, "create"), guard(ok(exnb, "exnb"),
            guard(ok(un, "un"), guard(ok(close, "c"), passed()))))),
{
    check_ok(tmp, "tempdir")?;
    check_ok(create, "create")?;
    check_ok(exnb, "exnb")?;
    check_ok(un, "un")?;
    check_ok(close, "c")?;
    Ok(())
}

/// With an exclusive lock held through one open file, a non-blocking
/// exclusive lock through another fails with EWOULDBLOCK.
pub fn misc_flock_conflict_nb(
    tmp: Sys,
    path: TestResult,
    open_a: Sys,
    open_b: Sys,
    ex: Sys,
    busy: Sys,
    un: Sys,
    close_a: Sys,
    close_b: Sys,
) -> (r: TestResult)
    ensures
        r == guard(ok(tmp, "tempdir"), guard(nested(path), guard(ok(open_a, "a"),
            guard(ok(open_b, "b"), guard(ok(ex, "ex"), guard(errs(busy, EWOULDBLOCK, "busy"),
            guard(ok(un, "un"), guard(ok(close_a, "ca"), guard(ok(close_b, "cb"), passed()))))))))),
{
    check_ok(tmp, "tempdir")?;
    path?;
    check_ok(open_a, "a")?;
    check_ok(open_b, "b")?;
    check_ok(ex, "ex")?;
    check_err(busy, EWOULDBLOCK, "busy")?;
    check_ok(un, "un")?;
    check_ok(close_a, "ca")?;
    check_ok(close_b, "cb")?;
    Ok(())
}

/// The calling process runs under `SCHED_OTHER`.
pub fn misc_sched_getscheduler(pol: SysVal) -> (r: TestResult)
    ensures
        r == guard(ok(pol, "pol"), guard(that((pol->Ok_0) == SCHED_OTHER, "other"), passed())),
{
    let p = check_ok(pol, "pol")?;
    check(p == SCHED_OTHER, "other")?;
    Ok(())
}

/// The nice value lies in [-20, 19].
pub fn misc_getpriority(prio: SysVal) -> (r: TestResult)
    ensures
        r == guard(ok(prio, "prio"),
            guard(that((prio->Ok_0) >= -20 && (prio->Ok_0) <= 19, "range"), passed())),
{
    let p = check_ok(prio, "prio")?;
    check(p >= -20 && p <= 19, "range")?;
    Ok(())
}

/// A 64-byte draw fills all 64 bytes.
pub fn misc_getrandom_64(gr: SysVal) -> (r: TestResult)
    ensures
        r == guard(ok(gr, "gr"), guard(that((gr->Ok_0) == 64, "n"), passed())),
{
    let n = check_ok(gr, "gr")?;
    check(n == 64, "n")?;
    Ok(())
}

/// `dup2(fd, fd)` returns `fd`.
pub fn misc_dup2_self(tmp: Sys, create: SysVal, dup2: SysVal, close: Sys) -> (r: TestResult)
    ensures
        r == guard(ok(tmp, "tempdir"), guard(ok(create, "create"), guard(ok(dup2, "self"),
            guard(that((dup2->Ok_0) == (create->Ok_0), "same"), guard(ok(close, "c"), passed()))))),
{
    check_ok(tmp, "tempdir")?;
    let fd = check_ok(create, "create")?;
    let d = check_ok(dup2, "self")?;
    check(d == fd, "same")?;
    check_ok(close, "c")?;
    Ok(())
}

/// Two `uname` calls report the same system name and release.
pub fn misc_uname_stable(
    a: Sys,
    b: Sys,
    sys_a: &[u8],
    sys_b: &[u8],
    rel_a: &[u8],
    rel_b: &[u8],
) -> (r: TestResult)
    ensures
        r == guard(ok(a, "a"), guard(ok(b, "b"), guard(that(cstr(sys_a@) == cstr(sys_b@), "sys"),
            guard(that(cstr(rel_a@) == cstr(rel_b@), "rel"), passed())))),
{
    check_ok(a, "a")?;
    check_ok(b, "b")?;
    check(bytes_eq(cstr_prefix(sys_a), cstr_prefix(sys_b)), "sys")?;
    check(bytes_eq(cstr_prefix(rel_a), cstr_prefix(rel_b)), "rel")?;
    Ok(())
}

/// Two `MEMBARRIER_CMD_QUERY` calls answer the same.
pub fn misc_membarrier_twice(a: SysVal, b: SysVal) -> (r: TestResult)
    ensures
        r == guard(ok(a, "a"), guard(ok(b, "b"),
            guard(that((a->Ok_0) == (b->Ok_0), "stable"), passed()))),
{
    let x = check_ok(a, "a")?;
    let y = check_ok(b, "b")?;
    check(x == y, "stable")?;
    Ok(())
}

/// `capget` for this process by its id succeeds.
pub fn misc_capget_self_pid(capget: Sys) -> (r: TestResult)
    ensures
        r == guard(ok(capget, "capget"), passed()),
{
    check_ok(capget, "capget")?;
    Ok(())
}

/// `close_range` over an empty range succeeds or fails with EINVAL or ENOSYS.
pub fn misc_close_range_empty_soft(close_range: Sys) -> (r: TestResult)
    ensures
        r ==
            guard(that(close_range is Ok || fails_with(close_range, seq![EINVAL, ENOSYS]), "cr empty"), passed()),
{
    check(close_range.is_ok() || failed_with(&close_range, &[EINVAL, ENOSYS]), "cr empty")?;
    Ok(())
}

/// Two open files of one file both take a shared lock.
pub fn misc_flock_sh_two_fds(
    tmp: Sys,
    path: TestResult,
    open_a: Sys,
    open_b: Sys,
    sh_a: Sys,
    sh_b: Sys,
    un_a: Sys,
    un_b: Sys,
    close_a: Sys,
    close_b: Sys,
) -> (r: TestResult)
    ensures
        r == guard(ok(tmp, "tempdir"), guard(nested(path), guard(ok(open_a, "a"),
            guard(ok(open_b, "b"), guard(ok(sh_a, "a"), guard(ok(sh_b, "b"), guard(ok(un_a, "ua"),
            guard(ok(un_b, "ub"), guard(ok(close_a, "ca"),
            guard(ok(close_b, "cb"), passed())))))))))),
{
    check_ok(tmp, "tempdir")?;
    path?;
    check_ok(open_a, "a")?;
    check_ok(open_b, "b")?;
    check_ok(sh_a, "a")?;
    check_ok(sh_b, "b")?;
    check_ok(un_a, "ua")?;
    check_ok(un_b, "ub")?;
    check_ok(close_a, "ca")?;
    check_ok(close_b, "cb")?;
    Ok(())
}

} // verus!
