//! System V shared memory: `shmget`, `shmat`, `shmdt` and `shmctl`.
//!
//! Permission and resource errors skip a test; `ENOSYS` never does.

use vstd::prelude::*;
use crate::errno::{Errno, EACCES, EFAULT, EIDRM, EINVAL, ENOMEM, ENOSPC, ENOSYS, EPERM};
use crate::harness::{
    AssertFail, Sys, SysVal, TestResult, check, check_err, check_ok, errs, fail, failure, guard,
    ok, passed, that,
};
use crate::wait_status::{spec_exit_code, wexitstatus};

verus! {

/// Errors under which a shared-memory test is skipped.
pub open spec fn is_skip(e: Errno) -> bool {
    e.0 == EPERM || e.0 == EACCES || e.0 == ENOMEM || e.0 == ENOSPC
}

/// Whether an error skips a shared-memory test.
pub fn soft_skip(e: Errno) -> (r: bool)
    ensures
        r == is_skip(e),
{
    e.0 == EPERM || e.0 == EACCES || e.0 == ENOMEM || e.0 == ENOSPC
}

/// What `shmget_or_soft` makes of a `shmget`: the id; `None` (skip) on a
/// permission or resource error; a failure on `ENOSYS` or another error.
pub open spec fn spec_shmget_or_soft(get: SysVal) -> Result<Option<i64>, AssertFail> {
    match get {
        Ok(id) => Ok(Some(id)),
        Err(e) => if e.0 == ENOSYS { Err(failure("shmget ENOSYS")) } else if is_skip(e) { Ok(None) } else {
            Err(failure("shmget"))
        },
    }
}

/// What a `shmget` that may be skipped gives (see `spec_shmget_or_soft`).
pub fn shmget_or_soft(get: SysVal) -> (r: Result<Option<i64>, AssertFail>)
    ensures
        r == spec_shmget_or_soft(get),
{
    match get {
        Ok(id) => Ok(Some(id)),
        Err(e) => if e.0 == ENOSYS { Err(fail("shmget ENOSYS")) } else if soft_skip(e) { Ok(None) } else {
            Err(fail("shmget"))
        },
    }
}

/// `ENOSYS` from `shmget` is never a skip: it fails the test with
/// "shmget ENOSYS"; a skip (`None`) comes only from EPERM, EACCES, ENOMEM or
/// ENOSPC, and an id only from a successful `shmget`.
pub proof fn lemma_shmget_enosys_fails(get: SysVal, rest: TestResult)
    ensures
        get == Err::<i64, Errno>(Errno(ENOSYS)) ==> spec_shmget_or_soft(get) == Err::<Option<i64>, AssertFail>(
            AssertFail { msg: "shmget ENOSYS", errno: None },
        ),
        get == Err::<i64, Errno>(Errno(ENOSYS)) ==> shm_gate(get, rest) == Err::<(), AssertFail>(
            AssertFail { msg: "shmget ENOSYS", errno: None },
        ),
        spec_shmget_or_soft(get) == Ok::<Option<i64>, AssertFail>(None) ==> get is Err && (get->Err_0.0 == 1
            || get->Err_0.0 == 13 || get->Err_0.0 == 12 || get->Err_0.0 == 28),
        spec_shmget_or_soft(get) is Ok && spec_shmget_or_soft(get)->Ok_0 is Some ==> get is Ok
            && spec_shmget_or_soft(get)->Ok_0->Some_0 == get->Ok_0,
{
}

/// A test that starts with a `shmget` that may be skipped: the rest of the
/// test once it gave an id.
pub open spec fn shm_gate(get: SysVal, rest: TestResult) -> TestResult {
    match spec_shmget_or_soft(get) {
        Ok(Some(_)) => rest,
        Ok(None) => Ok(()),
        Err(f) => Err(f),
    }
}

/// A `shmat` that may be skipped: the rest of the test once it attached, a
/// pass on a permission or resource error, a failure named `msg` otherwise.
pub open spec fn attach_gate(at: SysVal, msg: &'static str, rest: TestResult) -> TestResult {
    match at {
        Ok(_) => rest,
        Err(e) => if is_skip(e) { Ok(()) } else { Err(failure(msg)) },
    }
}

/// `shmget` of a one-page private segment is not `ENOSYS`.
pub fn sysv_shm_get_not_enosys(get: SysVal) -> (r: TestResult)
    ensures
        r == shm_gate(get, passed()),
{
    match shmget_or_soft(get)? {
        Some(_) => Ok(()),
        None => Ok(()),
    }
}

/// A private segment attaches and keeps 0x5A written over its first 16
/// bytes (`byte0`, `byte15`: read back).
pub fn sysv_shm_ipc_private_roundtrip(
    get: SysVal,
    attach: SysVal,
    byte0: u8,
    byte15: u8,
    detach: Sys,
    rmid: Sys,
) -> (r: TestResult)
    ensures
        r == shm_gate(get, attach_gate(attach, "shmat failed", guard(that(byte0 == 0x5A, "byte0"),
            guard(that(byte15 == 0x5A, "byte15"), guard(ok(detach, "shmdt"),
            guard(ok(rmid, "rmid"), passed())))))),
{
    let _id = match shmget_or_soft(get)? { Some(id) => id, None => return Ok(()) };
    match attach { Ok(_) => {}, Err(e) => if soft_skip(e) { return Ok(()) } else { return Err(fail("shmat failed")) } }
    check(byte0 == 0x5A, "byte0")?;
    check(byte15 == 0x5A, "byte15")?;
    check_ok(detach, "shmdt")?;
    check_ok(rmid, "rmid")?;
    Ok(())
}

/// A child's store of 0x42 into the shared segment is seen by the parent.
pub fn sysv_shm_parent_child_shared(
    get: SysVal,
    attach: SysVal,
    fork: Sys,
    wait: Sys,
    status: i32,
    seen: u8,
    detach: Sys,
    rmid: Sys,
) -> (r: TestResult)
    ensures
        r == shm_gate(get, attach_gate(attach, "shmat", guard(ok(fork, "fork"),
            guard(ok(wait, "wait"), guard(that(spec_exit_code(status) == 0, "child"),
            guard(that(seen == 0x42, "shared write"), guard(ok(detach, "shmdt"),
            guard(ok(rmid, "rmid"), passed())))))))),
{
    let _id = match shmget_or_soft(get)? { Some(id) => id, None => return Ok(()) };
    match attach { Ok(_) => {}, Err(e) => if soft_skip(e) { return Ok(()) } else { return Err(fail("shmat")) } }
    check_ok(fork, "fork")?;
    check_ok(wait, "wait")?;
    check(wexitstatus(status) == 0, "child")?;
    check(seen == 0x42, "shared write")?;
    check_ok(detach, "shmdt")?;
    check_ok(rmid, "rmid")?;
    Ok(())
}

/// Two attaches of one segment alias: a word written through one reads
/// through the other.
pub fn sysv_shm_dual_attach_same_segment(
    get: SysVal,
    attach_a: SysVal,
    attach_b: SysVal,
    alias: u32,
    detach_a: Sys,
    detach_b: Sys,
    rmid: Sys,
) -> (r: TestResult)
    ensures
        r == shm_gate(get, attach_gate(attach_a, "shmat a", attach_gate(attach_b, "shmat b",
            guard(that(alias == 0x1122_3344, "alias"), guard(ok(detach_a, "dt a"),
            guard(ok(detach_b, "dt b"), guard(ok(rmid, "rmid"), passed()))))))),
{
    let _id = match shmget_or_soft(get)? { Some(id) => id, None => return Ok(()) };
    match attach_a { Ok(_) => {}, Err(e) => if soft_skip(e) { return Ok(()) } else { return Err(fail("shmat a")) } }
    match attach_b { Ok(_) => {}, Err(e) => if soft_skip(e) { return Ok(()) } else { return Err(fail("shmat b")) } }
    check(alias == 0x1122_3344, "alias")?;
    check_ok(detach_a, "dt a")?;
    check_ok(detach_b, "dt b")?;
    check_ok(rmid, "rmid")?;
    Ok(())
}

/// `IPC_CREAT|IPC_EXCL` of a private segment succeeds.
pub fn sysv_shm_creat_excl(get: SysVal, rmid: Sys) -> (r: TestResult)
    ensures
        r == shm_gate(get, guard(ok(rmid, "rmid"), passed())),
{
    let _id = match shmget_or_soft(get)? { Some(id) => id, None => return Ok(()) };
    check_ok(rmid, "rmid")?;
    Ok(())
}

/// A zero-size segment is refused with EINVAL (or skipped).
pub fn sysv_shm_zero_size_einval(get: SysVal) -> (r: TestResult)
    ensures
        r == guard(that(!(get is Err && get->Err_0.0 == ENOSYS), "shmget ENOSYS"),
            guard(that(get is Err, "size 0 ok"),
            guard(that(get->Err_0.0 == EINVAL || is_skip(get->Err_0), "size 0 errno"), passed()))),
{
    check(match get { Err(e) => e.0 != ENOSYS, Ok(_) => true }, "shmget ENOSYS")?;
    check(get.is_err(), "size 0 ok")?;
    check(match get { Err(e) => e.0 == EINVAL || soft_skip(e), Ok(_) => true }, "size 0 errno")?;
    Ok(())
}

/// Two segments get distinct ids and keep their own words.
pub fn sysv_shm_two_segments_independent(
    get_a: SysVal,
    get_b: SysVal,
    attach_a: SysVal,
    attach_b: SysVal,
    word_a: u32,
    word_b: u32,
    detach_a: Sys,
    detach_b: Sys,
    rmid_a: Sys,
    rmid_b: Sys,
) -> (r: TestResult)
    ensures
        r == shm_gate(get_a, shm_gate(get_b,
            guard(that(get_a->Ok_0 != get_b->Ok_0, "distinct ids"), attach_gate(attach_a, "shmat a", attach_gate(attach_b, "shmat b",
            guard(that(word_a == 1, "a"), guard(that(word_b == 2, "b"), guard(ok(detach_a, "dt a"),
            guard(ok(detach_b, "dt b"), guard(ok(rmid_a, "rmid a"),
            guard(ok(rmid_b, "rmid b"), passed()))))))))))),
{
    let a = match shmget_or_soft(get_a)? { Some(id) => id, None => return Ok(()) };
    let b = match shmget_or_soft(get_b)? { Some(id) => id, None => return Ok(()) };
    check(a != b, "distinct ids")?;
    match attach_a { Ok(_) => {}, Err(e) => if soft_skip(e) { return Ok(()) } else { return Err(fail("shmat a")) } }
    match attach_b { Ok(_) => {}, Err(e) => if soft_skip(e) { return Ok(()) } else { return Err(fail("shmat b")) } }
    check(word_a == 1, "a")?;
    check(word_b == 2, "b")?;
    check_ok(detach_a, "dt a")?;
    check_ok(detach_b, "dt b")?;
    check_ok(rmid_a, "rmid a")?;
    check_ok(rmid_b, "rmid b")?;
    Ok(())
}

/// A two-page segment attaches and keeps 0xA5 written into it.
pub fn sysv_shm_attach_write_detach_path(
    get: Sys,
    attach: SysVal,
    byte: u8,
    detach: Sys,
    rmid: Sys,
) -> (r: TestResult)
    ensures
        r == guard(ok(get, "shmget"), attach_gate(attach, "shmat",
            guard(that(byte == 0xA5, "byte"), guard(ok(detach, "shmdt"),
            guard(ok(rmid, "rmid"), passed()))))),
{
    check_ok(get, "shmget")?;
    match attach { Ok(_) => {}, Err(e) => if soft_skip(e) { return Ok(()) } else { return Err(fail("shmat")) } }
    check(byte == 0xA5, "byte")?;
    check_ok(detach, "shmdt")?;
    check_ok(rmid, "rmid")?;
    Ok(())
}

/// A word written through a read-write attach reads through a read-only one.
pub fn sysv_shm_rdonly_attach(
    get: SysVal,
    attach_rw: SysVal,
    detach_rw: Sys,
    attach_ro: SysVal,
    word: u32,
    detach_ro: Sys,
    rmid: Sys,
) -> (r: TestResult)
    ensures
        r == shm_gate(get, attach_gate(attach_rw, "shmat rw",
            guard(ok(detach_rw, "dt rw"), attach_gate(attach_ro, "shmat ro",
            guard(that(word == 0x55AA_55AA, "ro read"), guard(ok(detach_ro, "dt ro"),
            guard(ok(rmid, "rmid"), passed()))))))),
{
    let _id = match shmget_or_soft(get)? { Some(id) => id, None => return Ok(()) };
    match attach_rw { Ok(_) => {}, Err(e) => if soft_skip(e) { return Ok(()) } else { return Err(fail("shmat rw")) } }
    check_ok(detach_rw, "dt rw")?;
    match attach_ro { Ok(_) => {}, Err(e) => if soft_skip(e) { return Ok(()) } else { return Err(fail("shmat ro")) } }
    check(word == 0x55AA_55AA, "ro read")?;
    check_ok(detach_ro, "dt ro")?;
    check_ok(rmid, "rmid")?;
    Ok(())
}

/// `IPC_STAT` succeeds or fails softly, never with ENOSYS.
pub fn sysv_shm_stat_soft(get: SysVal, stat: Sys, rmid: Sys) -> (r: TestResult)
    ensures
        r == shm_gate(get,
            guard(that(!(stat is Err && stat->Err_0.0 == ENOSYS), "shmctl STAT ENOSYS"),
            guard(that(stat is Ok || is_skip(stat->Err_0) || stat->Err_0.0 == EINVAL || stat->Err_0.0 == EFAULT, "shmctl STAT"),
            guard(ok(rmid, "rmid"), passed())))),
{
    let _id = match shmget_or_soft(get)? { Some(id) => id, None => return Ok(()) };
    check(match stat { Err(e) => e.0 != ENOSYS, Ok(_) => true }, "shmctl STAT ENOSYS")?;
    check(match stat { Err(e) => soft_skip(e) || e.0 == EINVAL || e.0 == EFAULT, Ok(_) => true }, "shmctl STAT")?;
    check_ok(rmid, "rmid")?;
    Ok(())
}

/// A removed segment does not attach (EINVAL, EIDRM or a skip error).
pub fn sysv_shm_attach_after_rmid_fails(get: SysVal, rmid: Sys, attach: Sys) -> (r: TestResult)
    ensures
        r == shm_gate(get, guard(ok(rmid, "rmid"), guard(that(attach is Err, "shmat after rmid"),
            guard(that(attach->Err_0.0 == EINVAL || attach->Err_0.0 == EIDRM || is_skip(attach->Err_0), "shmat errno"), passed())))),
{
    let _id = match shmget_or_soft(get)? { Some(id) => id, None => return Ok(()) };
    check_ok(rmid, "rmid")?;
    check(attach.is_err(), "shmat after rmid")?;
    check(match attach { Err(e) => e.0 == EINVAL || e.0 == EIDRM || soft_skip(e), Ok(_) => true }, "shmat errno")?;
    Ok(())
}

/// Removing a segment twice fails the second time with EINVAL, EPERM or
/// EIDRM.
pub fn sysv_shm_rmid_idempotent_probe(get: SysVal, rmid: Sys, again: Sys) -> (r: TestResult)
    ensures
        r == shm_gate(get, guard(ok(rmid, "rmid"), guard(that(again is Err, "second rmid ok"),
            guard(that(again->Err_0.0 == EINVAL || again->Err_0.0 == EPERM || again->Err_0.0 == EIDRM, "second rmid errno"), passed())))),
{
    let _id = match shmget_or_soft(get)? { Some(id) => id, None => return Ok(()) };
    check_ok(rmid, "rmid")?;
    check(again.is_err(), "second rmid ok")?;
    check(match again { Err(e) => e.0 == EINVAL || e.0 == EPERM || e.0 == EIDRM, Ok(_) => true }, "second rmid errno")?;
    Ok(())
}

/// Detaching address 0 fails with EINVAL.
pub fn sysv_shm_shmdt_bad_addr(detach: Sys) -> (r: TestResult)
    ensures
        r == guard(errs(detach, EINVAL, "null shmdt"), passed()),
{
    check_err(detach, EINVAL, "null shmdt")?;
    Ok(())
}

} // verus!
