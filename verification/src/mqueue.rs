//! POSIX message queues: `mq_open` and `mq_unlink` probes.

use vstd::prelude::*;
use vstd::string::StringSliceAdditionalSpecFns;
use crate::errno::{
    Errno, EACCES, EEXIST, EINVAL, EMFILE, ENFILE, ENOENT, ENOMEM, ENOSPC, ENOSYS, ENOTSUP, EPERM,
};
use crate::harness::{Sys, SysVal, TestResult, check, check_ok, guard, ok, only_if, passed, that};
use crate::plan::Act;
use crate::pty::{decimal, put_numbered_name};

verus! {

/// The queue name of the process with id `pid`: `/lctp-mq-<pid>`.
pub open spec fn spec_mq_name(pid: u32) -> Seq<u8> {
    "/lctp-mq-".spec_bytes() + decimal(pid as nat)
}

/// Writes the queue name of process `pid` and a NUL at the start of `buf`
/// and gives the length written, NUL included.
pub fn mq_name(pid: u32, buf: &mut [u8; 32]) -> (len: usize)
    ensures
        len == spec_mq_name(pid).len() + 1,
        final(buf)@.subrange(0, len as int) == spec_mq_name(pid).push(0),
        forall|j: int| len <= j < 32 ==> final(buf)@[j] == old(buf)@[j],
{
    proof {
        reveal_strlit("/lctp-mq-");
        vstd::string::is_ascii_spec_bytes("/lctp-mq-");
    }
    let prefix = "/lctp-mq-".as_bytes();
    assert(prefix@.len() == 9);
    put_numbered_name(buf, prefix, pid)
}

/// Errors under which message queues count as unavailable here.
pub open spec fn is_mq_unavailable(e: Errno) -> bool {
    e.0 == ENOENT || e.0 == EACCES || e.0 == EPERM || e.0 == ENOSYS || e.0 == EINVAL || e.0
        == ENOSPC || e.0 == ENOMEM || e.0 == EMFILE || e.0 == ENFILE || e.0 == ENOTSUP
}

/// Whether an error means message queues are unavailable here.
pub fn mq_unavailable(e: Errno) -> (r: bool)
    ensures
        r == is_mq_unavailable(e),
{
    e.0 == ENOENT || e.0 == EACCES || e.0 == EPERM || e.0 == ENOSYS || e.0 == EINVAL || e.0
        == ENOSPC || e.0 == ENOMEM || e.0 == EMFILE || e.0 == ENFILE || e.0 == ENOTSUP
}

/// Creating the process's queue (`mq_name`) gives a descriptor that closes,
/// and the queue unlinks; unavailable queues and a leftover queue
/// (`EEXIST`) pass.
pub fn mq_open_create_unlink_soft(open: SysVal, close: Sys, unlink: Sys) -> (r: TestResult)
    ensures
        r == guard(only_if(open is Ok, that(open->Ok_0 >= 0, "fd")),
            guard(only_if(open is Ok, ok(close, "close")),
            guard(only_if(open is Ok, that(unlink is Ok || is_mq_unavailable(unlink->Err_0), "mq_unlink")),
            guard(that(open is Ok || is_mq_unavailable(open->Err_0) || open->Err_0.0 == EEXIST, "mq_open unexpected"), passed())))),
{
    if open.is_ok() {
        check(match open { Ok(fd) => fd >= 0, Err(_) => true }, "fd")?;
        check_ok(close, "close")?;
        check(match unlink { Ok(_) => true, Err(e) => mq_unavailable(e) }, "mq_unlink")?;
    }
    check(match open { Ok(_) => true, Err(e) => mq_unavailable(e) || e.0 == EEXIST }, "mq_open unexpected")?;
    Ok(())
}

/// The calls `mq_open_create_unlink_soft` makes besides its checks: when
/// the queue was left over (`EEXIST`), it unlinks it, whatever that gives,
/// and passes.
pub fn create_unlink_cleanup(open: SysVal) -> (acts: Vec<Act>)
    ensures
        acts@ == (if open is Err && open->Err_0.0 == EEXIST { seq![Act::MqUnlink] } else {
            Seq::<Act>::empty()
        }),
{
    match open {
        Err(e) => if e.0 == EEXIST { vec![Act::MqUnlink] } else { vec![] },
        Ok(_) => vec![],
    }
}

/// The calls `mq_open_missing_name_soft` makes besides its check: a queue
/// that opened after all has its descriptor closed before the test fails.
pub fn missing_name_cleanup(open: SysVal) -> (acts: Vec<Act>)
    ensures
        acts@ == (match open { Ok(fd) => seq![Act::Close(fd)], Err(_) => Seq::<Act>::empty() }),
{
    match open {
        Ok(fd) => vec![Act::Close(fd)],
        Err(_) => vec![],
    }
}

/// Opening a queue that does not exist fails.
pub fn mq_open_missing_name_soft(open: Sys) -> (r: TestResult)
    ensures
        r == guard(that(open is Err, "unexpected open"), passed()),
{
    check(open.is_err(), "unexpected open")?;
    Ok(())
}

} // verus!
