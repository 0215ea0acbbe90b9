//! `userfaultfd` probes.

use vstd::prelude::*;
use crate::errno::{Errno, EACCES, EINVAL, ENOSYS, EPERM};
use crate::harness::{Sys, SysVal, TestResult, check, check_ok, guard, ok, only_if, passed, that};

verus! {

/// Errors under which `userfaultfd` counts as unavailable here.
pub open spec fn is_uffd_unavailable(e: Errno) -> bool {
    e.0 == EPERM || e.0 == ENOSYS || e.0 == EINVAL || e.0 == EACCES
}

fn uffd_unavailable(e: Errno) -> (r: bool)
    ensures
        r == is_uffd_unavailable(e),
{
    e.0 == EPERM || e.0 == ENOSYS || e.0 == EINVAL || e.0 == EACCES
}

/// `userfaultfd` gives a descriptor that closes, or is unavailable.
pub fn userfaultfd_probe_soft(open: SysVal, close: Sys) -> (r: TestResult)
    ensures
        r == guard(only_if(open is Ok, that(open->Ok_0 >= 0, "fd")),
            guard(only_if(open is Ok, ok(close, "close")),
            guard(that(open is Ok || is_uffd_unavailable(open->Err_0), "userfaultfd unexpected"), passed()))),
{
    if open.is_ok() {
        check(match open { Ok(fd) => fd >= 0, Err(_) => true }, "fd")?;
        check_ok(close, "close")?;
    }
    check(match open { Ok(_) => true, Err(e) => uffd_unavailable(e) }, "userfaultfd unexpected")?;
    Ok(())
}

/// A nonblocking `userfaultfd` closes, or is unavailable.
pub fn userfaultfd_nonblock_soft(open: Sys, close: Sys) -> (r: TestResult)
    ensures
        r == guard(only_if(open is Ok, ok(close, "close")),
            guard(that(open is Ok || is_uffd_unavailable(open->Err_0), "userfaultfd nb"), passed())),
{
    if open.is_ok() {
        check_ok(close, "close")?;
    }
    check(match open { Ok(_) => true, Err(e) => uffd_unavailable(e) }, "userfaultfd nb")?;
    Ok(())
}

} // verus!
