//! `process_vm_readv` and `process_vm_writev`, on the calling process and
//! on a child.

use vstd::prelude::*;
use vstd::string::StringSliceAdditionalSpecFns;
use crate::bytes::{bytes_eq, le_u64, u64_from_ne_bytes};
use crate::harness::{Sys, SysVal, TestResult, check, check_ok, guard, ok, passed, that};
use crate::wait_status::{spec_exit_code, spec_term_sig, wexitstatus, wifexited};

verus! {

/// The address a child sent over the address pipe, in native byte order.
pub fn child_address(meta: [u8; 8]) -> (addr: u64)
    ensures
        addr == le_u64(meta@),
{
    u64_from_ne_bytes(meta)
}

/// Exit code of the child of `process_vm_writev_to_child_buf`: 0 when its
/// buffer holds "PARENT!!" once the parent signalled, 1 otherwise.
pub fn writev_child_exit_code(buf: &[u8]) -> (code: i32)
    ensures
        code == (if buf@ == "PARENT!!".spec_bytes() { 0i32 } else { 1i32 }),
{
    if bytes_eq(buf, "PARENT!!".as_bytes()) { 0 } else { 1 }
}

/// Reading the process's own "vm-readv-payload" copies its 16 bytes (`dst`:
/// the first 16 bytes of the destination).
pub fn process_vm_readv_self(read: SysVal, dst: &[u8]) -> (r: TestResult)
    ensures
        r == guard(ok(read, "readv self"), guard(that((read->Ok_0) == 16, "len"),
            guard(that(dst@ == "vm-readv-payload".spec_bytes(), "data"), passed()))),
{
    let n = check_ok(read, "readv self")?;
    check(n == 16, "len")?;
    check(bytes_eq(&dst, "vm-readv-payload".as_bytes()), "data")?;
    Ok(())
}

/// Writing "vm-writev-out" into the process's own buffer copies its 13
/// bytes (`remote`: the first 13 bytes of that buffer).
pub fn process_vm_writev_self(write: SysVal, remote: &[u8]) -> (r: TestResult)
    ensures
        r == guard(ok(write, "writev self"), guard(that((write->Ok_0) == 13, "len"),
            guard(that(remote@ == "vm-writev-out".spec_bytes(), "data"), passed()))),
{
    let n = check_ok(write, "writev self")?;
    check(n == 13, "len")?;
    check(bytes_eq(&remote, "vm-writev-out".as_bytes()), "data")?;
    Ok(())
}

/// The parent reads the child's "child-vm-bytes!" at the address the child
/// sent (`child_address`).
pub fn process_vm_readv_parent_child(
    addr_pipe: Sys,
    hold_pipe: Sys,
    fork: Sys,
    addr: SysVal,
    read: SysVal,
    dst: &[u8],
    release: Sys,
    wait: Sys,
    close: Sys,
) -> (r: TestResult)
    ensures
        r == guard(ok(addr_pipe, "addr pipe"), guard(ok(hold_pipe, "hold pipe"),
            guard(ok(fork, "fork"), guard(ok(addr, "addr"),
            guard(that((addr->Ok_0) == 8, "addr len"), guard(ok(read, "readv child"),
            guard(that((read->Ok_0) == 15, "copied"),
            guard(that(dst@ == "child-vm-bytes!".spec_bytes(), "payload"),
            guard(ok(release, "release child"), guard(ok(wait, "wait"),
            guard(ok(close, "close addr_r"), passed()))))))))))),
{
    check_ok(addr_pipe, "addr pipe")?;
    check_ok(hold_pipe, "hold pipe")?;
    check_ok(fork, "fork")?;
    let a = check_ok(addr, "addr")?;
    check(a == 8, "addr len")?;
    let n = check_ok(read, "readv child")?;
    check(n == 15, "copied")?;
    check(bytes_eq(&dst, "child-vm-bytes!".as_bytes()), "payload")?;
    check_ok(release, "release child")?;
    check_ok(wait, "wait")?;
    check_ok(close, "close addr_r")?;
    Ok(())
}

/// The parent writes "PARENT!!" into the child's buffer and the child sees
/// it (it exits 0, see `writev_child_exit_code`).
pub fn process_vm_writev_to_child_buf(
    addr_pipe: Sys,
    done_pipe: Sys,
    fork: Sys,
    addr: SysVal,
    write: SysVal,
    signal: Sys,
    wait: Sys,
    status: i32,
    close_addr: Sys,
    close_done: Sys,
) -> (r: TestResult)
    ensures
        r == guard(ok(addr_pipe, "addr pipe"), guard(ok(done_pipe, "done pipe"),
            guard(ok(fork, "fork"), guard(ok(addr, "addr"),
            guard(that((addr->Ok_0) == 8, "addr len"), guard(ok(write, "writev child"),
            guard(that((write->Ok_0) == 8, "wrote"), guard(ok(signal, "signal"),
            guard(ok(wait, "wait"), guard(that(spec_term_sig(status) == 0, "exited"),
            guard(that(spec_exit_code(status) == 0, "child verified"),
            guard(ok(close_addr, "close addr_r"),
            guard(ok(close_done, "close done_w"), passed()))))))))))))),
{
    check_ok(addr_pipe, "addr pipe")?;
    check_ok(done_pipe, "done pipe")?;
    check_ok(fork, "fork")?;
    let a = check_ok(addr, "addr")?;
    check(a == 8, "addr len")?;
    let n = check_ok(write, "writev child")?;
    check(n == 8, "wrote")?;
    check_ok(signal, "signal")?;
    check_ok(wait, "wait")?;
    check(wifexited(status), "exited")?;
    check(wexitstatus(status) == 0, "child verified")?;
    check_ok(close_addr, "close addr_r")?;
    check_ok(close_done, "close done_w")?;
    Ok(())
}

} // verus!
