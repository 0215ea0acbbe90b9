//! `unshare`, made only in forked children.

use vstd::prelude::*;
use crate::errno::{Errno, EACCES, EINVAL, ENOSYS, EPERM};
use crate::harness::{Sys, TestResult, check, check_ok, guard, ok, passed, that};
use crate::wait_status::{spec_exit_code, spec_term_sig, wexitstatus, wifexited};

verus! {

/// Errors under which an unprivileged `unshare(CLONE_FILES)` counts as
/// refused rather than broken.
pub open spec fn is_unshare_refused(e: Errno) -> bool {
    e.0 == EPERM || e.0 == EINVAL || e.0 == ENOSYS || e.0 == EACCES
}

fn unshare_refused(e: Errno) -> (r: bool)
    ensures
        r == is_unshare_refused(e),
{
    e.0 == EPERM || e.0 == EINVAL || e.0 == ENOSYS || e.0 == EACCES
}

/// Exit code of the child of `unshare_clone_files_in_child`: 0 when
/// `unshare(CLONE_FILES)` succeeded or was refused, 1 otherwise.
pub fn files_child_exit_code(unshare: Sys) -> (code: i32)
    ensures
        code == (match unshare { Ok(_) => 0i32, Err(e) => if is_unshare_refused(e) { 0i32 } else { 1i32 } }),
{
    match unshare {
        Ok(_) => 0,
        Err(e) => if unshare_refused(e) { 0 } else { 1 },
    }
}

/// Exit code of the child of `unshare_newuser_soft_eperm`: 0 when
/// `unshare(CLONE_NEWUSER)` succeeded or failed with EPERM or EINVAL, 1
/// otherwise.
pub fn newuser_child_exit_code(unshare: Sys) -> (code: i32)
    ensures
        code == (match unshare { Ok(_) => 0i32, Err(e) => if e.0 == EPERM || e.0 == EINVAL { 0i32 } else { 1i32 } }),
{
    match unshare {
        Ok(_) => 0,
        Err(e) => if e.0 == EPERM || e.0 == EINVAL { 0 } else { 1 },
    }
}

/// Exit code of the child of `unshare_clone_files_twice_child` after its
/// first `unshare(CLONE_FILES)`: `None` to try again after success, 0 when
/// refused, 1 otherwise.
pub fn files_twice_first_exit_code(first: Sys) -> (code: Option<i32>)
    ensures
        code == (match first { Ok(_) => None::<i32>, Err(e) => if is_unshare_refused(e) { Some(0i32) } else { Some(1i32) } }),
{
    match first {
        Ok(_) => None,
        Err(e) => if unshare_refused(e) { Some(0) } else { Some(1) },
    }
}

/// Exit code of the child of `unshare_clone_files_twice_child` after its
/// second `unshare(CLONE_FILES)`: 0 on success or refusal, 2 otherwise.
pub fn files_twice_second_exit_code(second: Sys) -> (code: i32)
    ensures
        code == (match second { Ok(_) => 0i32, Err(e) => if is_unshare_refused(e) { 0i32 } else { 2i32 } }),
{
    match second {
        Ok(_) => 0,
        Err(e) => if unshare_refused(e) { 0 } else { 2 },
    }
}

/// A child's `unshare(CLONE_FILES)` succeeds or is refused (it exits 0, see
/// `files_child_exit_code`).
pub fn unshare_clone_files_in_child(fork: Sys, wait: Sys, status: i32) -> (r: TestResult)
    ensures
        r == guard(ok(fork, "fork"), guard(ok(wait, "wait4"),
            guard(that(spec_term_sig(status) == 0, "exited"),
            guard(that(spec_exit_code(status) == 0, "unshare CLONE_FILES"), passed())))),
{
    check_ok(fork, "fork")?;
    check_ok(wait, "wait4")?;
    check(wifexited(status), "exited")?;
    check(wexitstatus(status) == 0, "unshare CLONE_FILES")?;
    Ok(())
}

/// A child's `unshare(CLONE_NEWUSER)` succeeds or fails with EPERM or
/// EINVAL (it exits 0, see `newuser_child_exit_code`).
pub fn unshare_newuser_soft_eperm(fork: Sys, wait: Sys, status: i32) -> (r: TestResult)
    ensures
        r == guard(ok(fork, "fork"), guard(ok(wait, "wait4"),
            guard(that(spec_term_sig(status) == 0, "exited"),
            guard(that(spec_exit_code(status) == 0, "NEWUSER ok or EPERM"), passed())))),
{
    check_ok(fork, "fork")?;
    check_ok(wait, "wait4")?;
    check(wifexited(status), "exited")?;
    check(wexitstatus(status) == 0, "NEWUSER ok or EPERM")?;
    Ok(())
}

/// A child's two `unshare(CLONE_FILES)` succeed or are refused (it exits 0,
/// see `files_twice_first_exit_code` and `files_twice_second_exit_code`).
pub fn unshare_clone_files_twice_child(fork: Sys, wait: Sys, status: i32) -> (r: TestResult)
    ensures
        r == guard(ok(fork, "fork"), guard(ok(wait, "wait4"),
            guard(that(spec_exit_code(status) == 0, "twice"), passed()))),
{
    check_ok(fork, "fork")?;
    check_ok(wait, "wait4")?;
    check(wexitstatus(status) == 0, "twice")?;
    Ok(())
}

} // verus!
