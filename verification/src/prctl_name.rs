//! `prctl`: the thread name, the dumpable flag and no-new-privileges.

use vstd::prelude::*;
use vstd::string::StringSliceAdditionalSpecFns;
use crate::bytes::nul_position;
use crate::harness::{
    Sys, SysVal, TestResult, all_passed, check, check_ok, first_failure, guard, nested, ok, passed,
    that,
};
use crate::misc::{cstr, cstr_prefix, nul_index};
use crate::spawn_ipc::{prefix_eq, starts_with};
use crate::wait_status::{spec_exit_code, wexitstatus};

verus! {

/// Whether `b` holds a NUL.
pub open spec fn has_nul(b: Seq<u8>) -> bool {
    exists|i: int| 0 <= i < b.len() && b[i] == 0
}

/// Whether a byte is printable ASCII.
pub open spec fn printable(c: u8) -> bool {
    0x20 <= c <= 0x7e
}

/// Whether the name before the first NUL of `b` is printable ASCII.
pub open spec fn name_printable(b: Seq<u8>) -> bool {
    forall|i: int| 0 <= i < cstr(b).len() ==> printable(cstr(b)[i])
}

/// Whether the name before the first NUL of `buf` is printable ASCII.
pub fn name_is_printable(buf: &[u8]) -> (r: bool)
    ensures
        r == name_printable(buf@),
{
    let name = cstr_prefix(buf);
    let mut i: usize = 0;
    while i < name.len()
        invariant
            name@ == cstr(buf@),
            i <= name@.len(),
            forall|j: int| 0 <= j < i ==> printable(name@[j]),
        decreases name.len() - i,
    {
        if !(name[i] >= 0x20 && name[i] <= 0x7e) {
            return false;
        }
        i = i + 1;
    }
    true
}

/// The names `prctl_set_name_roundtrip` sets in turn: "a", "xy" and
/// "longname12", each NUL-terminated.
pub fn roundtrip_name(i: usize) -> (name: &'static [u8])
    requires
        i < 3,
    ensures
        i == 0 ==> name@ == "a\0".spec_bytes(),
        i == 1 ==> name@ == "xy\0".spec_bytes(),
        i == 2 ==> name@ == "longname12\0".spec_bytes(),
{
    if i == 0 {
        "a\0".as_bytes()
    } else if i == 1 {
        "xy\0".as_bytes()
    } else {
        "longname12\0".as_bytes()
    }
}

/// Exit code of the child of `prctl_name_in_child`: 0 when it set its name
/// to "child" and read "child" back, 1 otherwise.
pub fn name_child_exit_code(set: Sys, get: Sys, buf: &[u8]) -> (code: i32)
    ensures
        code == (if set is Ok && get is Ok && starts_with(buf@, "child".spec_bytes()) { 0i32 } else {
            1i32
        }),
{
    if set.is_ok() && get.is_ok() && prefix_eq(buf, "child".as_bytes()) { 0 } else { 1 }
}

/// The name "lctp-test" set reads back.
pub fn prctl_set_get_name(set: Sys, get: Sys, buf: &[u8]) -> (r: TestResult)
    ensures
        r == guard(ok(set, "set name"), guard(ok(get, "get name"),
            guard(that(starts_with(buf@, "lctp-test".spec_bytes()), "name"), passed()))),
{
    check_ok(set, "set name")?;
    check_ok(get, "get name")?;
    check(prefix_eq(buf, "lctp-test".as_bytes()), "name")?;
    Ok(())
}

/// The name read into a buffer of 0xFF bytes is NUL-terminated.
pub fn prctl_get_name_nul_terminated(get: Sys, buf: &[u8]) -> (r: TestResult)
    ensures
        r == guard(ok(get, "get name"), guard(that(has_nul(buf@), "nul terminated"), passed())),
{
    check_ok(get, "get name")?;
    check(nul_position(buf).is_some(), "nul terminated")?;
    Ok(())
}

/// One name of `prctl_set_name_roundtrip` (`roundtrip_name`): set, read
/// back, the read name begins with it.
pub fn name_roundtrip_round(name: &[u8], set: Sys, get: Sys, buf: &[u8]) -> (r: TestResult)
    requires
        has_nul(name@),
        nul_index(name@) <= buf@.len(),
    ensures
        r == guard(ok(set, "set"), guard(ok(get, "get"),
            guard(that(starts_with(buf@, cstr(name@)), "match"), passed()))),
{
    check_ok(set, "set")?;
    check_ok(get, "get")?;
    check(prefix_eq(buf, cstr_prefix(name)), "match")?;
    Ok(())
}

/// Each of the names "a", "xy" and "longname12" reads back
/// (`name_roundtrip_round`).
pub fn prctl_set_name_roundtrip(rounds: &[TestResult]) -> (r: TestResult)
    ensures
        r == guard(nested(first_failure(rounds@)), passed()),
{
    all_passed(rounds)?;
    Ok(())
}

/// A child names itself "child" and reads it back (it exits 0, see
/// `name_child_exit_code`).
pub fn prctl_name_in_child(fork: Sys, wait: Sys, status: i32) -> (r: TestResult)
    ensures
        r == guard(ok(fork, "fork"), guard(ok(wait, "wait4"),
            guard(that(spec_exit_code(status) == 0, "child name"), passed()))),
{
    check_ok(fork, "fork")?;
    check_ok(wait, "wait4")?;
    check(wexitstatus(status) == 0, "child name")?;
    Ok(())
}

/// The one-character name "z" reads back.
pub fn prctl_set_short_name(set: Sys, get: Sys, first: u8) -> (r: TestResult)
    ensures
        r == guard(ok(set, "set"), guard(ok(get, "get"),
            guard(that(first == 122, "char"), passed()))),
{
    check_ok(set, "set")?;
    check_ok(get, "get")?;
    check(first == 122, "char")?;
    Ok(())
}

/// A 15-character name reads back whole.
pub fn prctl_name_max_15_chars(set: Sys, get: Sys, buf: &[u8]) -> (r: TestResult)
    ensures
        r == guard(ok(set, "set max"), guard(ok(get, "get"),
            guard(that(starts_with(buf@, "123456789012345".spec_bytes()), "15 chars"), passed()))),
{
    check_ok(set, "set max")?;
    check_ok(get, "get")?;
    check(prefix_eq(buf, "123456789012345".as_bytes()), "15 chars")?;
    Ok(())
}

/// The name the process had, set again after a temporary one, reads back.
pub fn prctl_restore_name(
    orig_get: Sys,
    temp: Sys,
    restore: Sys,
    get: Sys,
    orig: &[u8],
    buf: &[u8],
) -> (r: TestResult)
    ensures
        r == guard(ok(orig_get, "orig"), guard(ok(temp, "temp"), guard(ok(restore, "restore"),
            guard(ok(get, "get"),
            guard(that(starts_with(buf@, cstr(orig@)), "restored"), passed()))))),
{
    check_ok(orig_get, "orig")?;
    check_ok(temp, "temp")?;
    check_ok(restore, "restore")?;
    check_ok(get, "get")?;
    check(prefix_eq(buf, cstr_prefix(orig)), "restored")?;
    Ok(())
}

/// The name is printable ASCII.
pub fn prctl_get_name_readable(get: Sys, buf: &[u8]) -> (r: TestResult)
    ensures
        r == guard(ok(get, "get"), guard(that(name_printable(buf@), "printable"), passed())),
{
    check_ok(get, "get")?;
    check(name_is_printable(buf), "printable")?;
    Ok(())
}

/// The dumpable flag is 0, 1 or 2; set to 1 it reads 1; the value it had
/// is set back.
pub fn prctl_get_set_dumpable(orig: SysVal, set: Sys, get: SysVal, restore: Sys) -> (r: TestResult)
    ensures
        r == guard(ok(orig, "get dumpable"),
            guard(that((orig->Ok_0) == 0 || (orig->Ok_0) == 1 || (orig->Ok_0) == 2, "dumpable range"),
            guard(ok(set, "set dumpable 1"), guard(ok(get, "get after set"),
            guard(that((get->Ok_0) == 1, "dumpable 1"), guard(ok(restore, "restore"), passed())))))),
{
    let o = check_ok(orig, "get dumpable")?;
    check(o == 0 || o == 1 || o == 2, "dumpable range")?;
    check_ok(set, "set dumpable 1")?;
    let v = check_ok(get, "get after set")?;
    check(v == 1, "dumpable 1")?;
    check_ok(restore, "restore")?;
    Ok(())
}

/// The no-new-privileges flag is 0 or 1.
pub fn prctl_get_no_new_privs(get: SysVal) -> (r: TestResult)
    ensures
        r == guard(ok(get, "get nnp"),
            guard(that((get->Ok_0) == 0 || (get->Ok_0) == 1, "nnp 0/1"), passed())),
{
    let v = check_ok(get, "get nnp")?;
    check(v == 0 || v == 1, "nnp 0/1")?;
    Ok(())
}

/// The dumpable flag set to 0 reads 0.
pub fn prctl_set_dumpable_zero_readback(orig: SysVal, set: Sys, get: SysVal) -> (r: TestResult)
    ensures
        r == guard(ok(orig, "orig"), guard(ok(set, "set 0"), guard(ok(get, "get"),
            guard(that((get->Ok_0) == 0, "dumpable 0"), passed())))),
{
    let o = check_ok(orig, "orig")?;
    check_ok(set, "set 0")?;
    let v = check_ok(get, "get")?;
    check(v == 0, "dumpable 0")?;
    Ok(())
}

} // verus!
