//! System V message queues (`msgget`, `msgsnd`, `msgrcv`, `msgctl`) on `IPC_PRIVATE`.

use vstd::prelude::*;
use vstd::string::StringSliceAdditionalSpecFns;
use crate::bytes::bytes_eq;
use crate::errno::{Errno, EACCES, EIDRM, EINVAL, ENOMEM, ENOSPC, ENOSYS, EPERM};
use crate::harness::{
    Sys, SysVal, TestResult, check, check_ok, fail, failure, guard, ok, passed, that,
};

verus! {

/// Errors under which System V IPC counts as unsupported here.
pub open spec fn is_ipc_soft(e: Errno) -> bool {
    e.0 == ENOSYS || e.0 == EPERM || e.0 == EACCES || e.0 == ENOMEM || e.0 == ENOSPC || e.0 == EINVAL
}

/// Whether an error means System V IPC is unsupported here.
pub fn soft(e: Errno) -> (r: bool)
    ensures
        r == is_ipc_soft(e),
{
    e.0 == ENOSYS || e.0 == EPERM || e.0 == EACCES || e.0 == ENOMEM || e.0 == ENOSPC || e.0 == EINVAL
}

/// An IPC call that must succeed unless unsupported: the rest of the test
/// on success, a pass on an unsupported error, a failure named `msg`
/// otherwise.
pub open spec fn ipc_gate<T>(r: Result<T, Errno>, msg: &'static str, rest: TestResult) -> TestResult {
    match r {
        Ok(_) => rest,
        Err(e) => if is_ipc_soft(e) { Ok(()) } else { Err(failure(msg)) },
    }
}

/// Whether a second `IPC_RMID` of a removed object failed as it should:
/// with EINVAL, EPERM or EIDRM.
pub open spec fn rmid_again_ok(e: Errno) -> bool {
    e.0 == EINVAL || e.0 == EPERM || e.0 == EIDRM
}

/// A four-byte message "ping" of type 1 sent to a private queue is received
/// whole (`text`: the first four bytes received); unsupported calls pass.
pub fn sysv_msg_ipc_private_roundtrip(
    get: Sys,
    send: Sys,
    recv: SysVal,
    mtype: i64,
    text: &[u8],
    rmid: Sys,
) -> (r: TestResult)
    ensures
        r == ipc_gate(get, "msgget", ipc_gate(send, "msgsnd", ipc_gate(recv, "msgrcv",
            guard(that((recv->Ok_0) == 4, "len"), guard(that(mtype == 1, "mtype"),
            guard(that(text@ == "ping".spec_bytes(), "payload"),
            guard(ok(rmid, "rmid"), passed()))))))),
{
    match get { Ok(_) => {}, Err(e) => if soft(e) { return Ok(()) } else { return Err(fail("msgget")) } }
    match send { Ok(_) => {}, Err(e) => if soft(e) { return Ok(()) } else { return Err(fail("msgsnd")) } }
    let n = match recv { Ok(n) => n, Err(e) => if soft(e) { return Ok(()) } else { return Err(fail("msgrcv")) } };
    check(n == 4, "len")?;
    check(mtype == 1, "mtype")?;
    check(bytes_eq(&text, "ping".as_bytes()), "payload")?;
    check_ok(rmid, "rmid")?;
    Ok(())
}

/// Of messages of types 2 ("A") and 3 ("B"), asking for type 3 gets "B";
/// the next receive gets the type-2 one. A failed send passes.
pub fn sysv_msg_type_filter(
    get: Sys,
    send1: Sys,
    send2: Sys,
    recv3: SysVal,
    mtype: i64,
    first: u8,
    rest: SysVal,
    mtype2: i64,
    rmid: Sys,
) -> (r: TestResult)
    ensures
        r == ipc_gate(get, "msgget", (if send1 is Err || send2 is Err { Ok(()) } else {
            guard(ok(recv3, "rcv type 3"), guard(that((recv3->Ok_0) == 1, "len"),
            guard(that(mtype == 3, "type"), guard(that(first == 66, "B"),
            guard(ok(rest, "rcv remaining"), guard(that((rest->Ok_0) == 1, "len2"),
            guard(that(mtype2 == 2, "type2"), guard(ok(rmid, "rmid"), passed())))))))) })),
{
    match get { Ok(_) => {}, Err(e) => if soft(e) { return Ok(()) } else { return Err(fail("msgget")) } }
    if send1.is_err() || send2.is_err() { return Ok(()); }
    let n = check_ok(recv3, "rcv type 3")?;
    check(n == 1, "len")?;
    check(mtype == 3, "type")?;
    check(first == 66, "B")?;
    let n2 = check_ok(rest, "rcv remaining")?;
    check(n2 == 1, "len2")?;
    check(mtype2 == 2, "type2")?;
    check_ok(rmid, "rmid")?;
    Ok(())
}

/// Removing a queue twice fails the second time with EINVAL, EPERM or
/// EIDRM.
pub fn sysv_msg_rmid(get: Sys, rmid: Sys, again: Sys) -> (r: TestResult)
    ensures
        r == ipc_gate(get, "msgget", guard(ok(rmid, "rmid"),
            guard(that(again is Err, "second rmid ok"),
            guard(that(rmid_again_ok(again->Err_0), "second rmid errno"), passed())))),
{
    match get { Ok(_) => {}, Err(e) => if soft(e) { return Ok(()) } else { return Err(fail("msgget")) } }
    check_ok(rmid, "rmid")?;
    check(again.is_err(), "second rmid ok")?;
    check(match again { Err(e) => e.0 == EINVAL || e.0 == EPERM || e.0 == EIDRM, Ok(_) => true }, "second rmid errno")?;
    Ok(())
}

} // verus!
