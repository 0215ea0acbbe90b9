//! System V semaphores (`semget`, `semop`, `semctl`) on `IPC_PRIVATE`.

use vstd::prelude::*;

use crate::errno::{Errno, EACCES, EIDRM, EINVAL, ENOMEM, ENOSPC, ENOSYS, EPERM};
use crate::harness::{
    Sys, SysVal, TestResult, check, check_ok, fail, failure, guard, ok, passed, that,
};

verus! {

/// Errors under which System V IPC counts as unsupported here.
pub open spec fn is_ipc_soft(e: Errno) -> bool {
    e.0 == ENOSYS || e.0 == EPERM || e.0 == EACCES || e.0 == ENOMEM || e.0 == ENOSPC || e.0 == EINVAL
}

/// Whether an error means System V IPC is unsupported here.
pub fn soft(e: Errno) -> (r: bool)
    ensures
        r == is_ipc_soft(e),
{
    e.0 == ENOSYS || e.0 == EPERM || e.0 == EACCES || e.0 == ENOMEM || e.0 == ENOSPC || e.0 == EINVAL
}

/// An IPC call that must succeed unless unsupported: the rest of the test
/// on success, a pass on an unsupported error, a failure named `msg`
/// otherwise.
pub open spec fn ipc_gate<T>(r: Result<T, Errno>, msg: &'static str, rest: TestResult) -> TestResult {
    match r {
        Ok(_) => rest,
        Err(e) => if is_ipc_soft(e) { Ok(()) } else { Err(failure(msg)) },
    }
}

/// Whether a second `IPC_RMID` of a removed object failed as it should:
/// with EINVAL, EPERM or EIDRM.
pub open spec fn rmid_again_ok(e: Errno) -> bool {
    e.0 == EINVAL || e.0 == EPERM || e.0 == EIDRM
}

/// A private semaphore set to 3 reads 3; unsupported calls pass.
pub fn sysv_sem_ipc_private_setval_getval(
    get: Sys,
    setval: Sys,
    getval: SysVal,
    rmid: Sys,
) -> (r: TestResult)
    ensures
        r == ipc_gate(get, "semget", ipc_gate(setval, "SETVAL", ipc_gate(getval, "GETVAL",
            guard(that((getval->Ok_0) == 3, "val"), guard(ok(rmid, "rmid"), passed()))))),
{
    match get { Ok(_) => {}, Err(e) => if soft(e) { return Ok(()) } else { return Err(fail("semget")) } }
    match setval { Ok(_) => {}, Err(e) => if soft(e) { return Ok(()) } else { return Err(fail("SETVAL")) } }
    let v = match getval { Ok(v) => v, Err(e) => if soft(e) { return Ok(()) } else { return Err(fail("GETVAL")) } };
    check(v == 3, "val")?;
    check_ok(rmid, "rmid")?;
    Ok(())
}

/// A semaphore at 1 goes down to 0 and back up to 1; a failed `SETVAL`
/// passes.
pub fn sysv_sem_op_down_up(
    get: Sys,
    setval: Sys,
    down: Sys,
    getval: SysVal,
    up: Sys,
    getval2: SysVal,
    rmid: Sys,
) -> (r: TestResult)
    ensures
        r == ipc_gate(get, "semget", (if setval is Err { Ok(()) } else { ipc_gate(down, "semop down",
            guard(ok(getval, "getval"), guard(that((getval->Ok_0) == 0, "after down"),
            guard(ok(up, "semop up"), guard(ok(getval2, "getval2"),
            guard(that((getval2->Ok_0) == 1, "after up"),
            guard(ok(rmid, "rmid"), passed()))))))) })),
{
    match get { Ok(_) => {}, Err(e) => if soft(e) { return Ok(()) } else { return Err(fail("semget")) } }
    if setval.is_err() { return Ok(()); }
    match down { Ok(_) => {}, Err(e) => if soft(e) { return Ok(()) } else { return Err(fail("semop down")) } }
    let v = check_ok(getval, "getval")?;
    check(v == 0, "after down")?;
    check_ok(up, "semop up")?;
    let v2 = check_ok(getval2, "getval2")?;
    check(v2 == 1, "after up")?;
    check_ok(rmid, "rmid")?;
    Ok(())
}

/// Removing a semaphore set twice fails the second time with EINVAL, EPERM
/// or EIDRM.
pub fn sysv_sem_rmid_idempotent(get: Sys, rmid: Sys, again: Sys) -> (r: TestResult)
    ensures
        r == ipc_gate(get, "semget", guard(ok(rmid, "rmid"),
            guard(that(again is Err, "second rmid ok"),
            guard(that(rmid_again_ok(again->Err_0), "second rmid errno"), passed())))),
{
    match get { Ok(_) => {}, Err(e) => if soft(e) { return Ok(()) } else { return Err(fail("semget")) } }
    check_ok(rmid, "rmid")?;
    check(again.is_err(), "second rmid ok")?;
    check(match again { Err(e) => e.0 == EINVAL || e.0 == EPERM || e.0 == EIDRM, Ok(_) => true }, "second rmid errno")?;
    Ok(())
}

} // verus!
