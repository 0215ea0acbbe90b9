//! Miscellaneous calls: `uname`, `getrandom`, `sched_yield` and the
//! descriptor limit.

use vstd::prelude::*;
use vstd::string::StringSliceAdditionalSpecFns;
use crate::abi::Rlimit;
use crate::bytes::{bytes_eq, nul_position};
use crate::errno::Errno;
use crate::harness::{Sys, SysVal, TestResult, check, check_ok, guard, ok, passed, that};
use crate::spawn_ipc::{prefix_eq, starts_with};

verus! {

/// The number of bytes of `b` before its first NUL (all of them when it
/// has none).
pub open spec fn nul_index(b: Seq<u8>) -> nat
    decreases b.len(),
{
    if b.len() == 0 {
        0
    } else if b[0] == 0 {
        0
    } else {
        1 + nul_index(b.drop_first())
    }
}

/// The C string at the start of `b`: its bytes before the first NUL.
pub open spec fn cstr(b: Seq<u8>) -> Seq<u8> {
    b.subrange(0, nul_index(b) as int)
}

proof fn lemma_nul_index(b: Seq<u8>, i: int)
    requires
        0 <= i <= b.len(),
        i < b.len() ==> b[i] == 0,
        forall|j: int| 0 <= j < i ==> b[j] != 0,
    ensures
        nul_index(b) == i,
    decreases i,
{
    if i > 0 {
        assert(b[0] != 0);
        lemma_nul_index(b.drop_first(), i - 1);
    }
}

/// The C string of a field is the part before its first NUL: it holds no
/// NUL, and the field ends or has a NUL right after it.
pub proof fn lemma_cstr_shape(b: Seq<u8>)
    ensures
        nul_index(b) <= b.len(),
        cstr(b).len() == nul_index(b),
        forall|j: int| 0 <= j < cstr(b).len() ==> cstr(b)[j] == b[j] && b[j] != 0,
        nul_index(b) < b.len() ==> b[nul_index(b) as int] == 0,
    decreases b.len(),
{
    if b.len() > 0 && b[0] != 0 {
        let t = b.drop_first();
        lemma_cstr_shape(t);
        assert forall|j: int| 0 <= j < nul_index(b) implies b[j] != 0 by {
            if j > 0 {
                assert(t[j - 1] == b[j]);
            }
        }
        if nul_index(b) < b.len() {
            assert(t[nul_index(t) as int] == b[nul_index(b) as int]);
        }
    }
}

/// The C string at the start of a fixed-size field (see `cstr`).
pub fn cstr_prefix(b: &[u8]) -> (r: &[u8])
    ensures
        r@ == cstr(b@),
{
    match nul_position(b) {
        Some(i) => {
            proof {
                lemma_nul_index(b@, i as int);
            }
            vstd::slice::slice_subrange(b, 0, i)
        },
        None => {
            proof {
                lemma_nul_index(b@, b@.len() as int);
            }
            vstd::slice::slice_subrange(b, 0, b.len())
        },
    }
}

/// The system name begins with "Linux".
pub fn uname_linux(uname: Sys, sysname: &[u8]) -> (r: TestResult)
    ensures
        r == guard(ok(uname, "uname"),
            guard(that(starts_with(cstr(sysname@), "Linux".spec_bytes()), "not Linux"), passed())),
{
    check_ok(uname, "uname")?;
    check(prefix_eq(cstr_prefix(sysname), "Linux".as_bytes()), "not Linux")?;
    Ok(())
}

/// The release and machine names are not empty.
pub fn uname_fields_nonempty(uname: Sys, release: &[u8], machine: &[u8]) -> (r: TestResult)
    ensures
        r == guard(ok(uname, "uname"), guard(that(cstr(release@).len() != 0, "release empty"),
            guard(that(cstr(machine@).len() != 0, "machine empty"), passed()))),
{
    check_ok(uname, "uname")?;
    check(cstr_prefix(release).len() != 0, "release empty")?;
    check(cstr_prefix(machine).len() != 0, "machine empty")?;
    Ok(())
}

/// Two 32-byte draws differ.
pub fn getrandom_nonzero(a: SysVal, b: Sys, bytes_a: &[u8], bytes_b: &[u8]) -> (r: TestResult)
    ensures
        r == guard(ok(a, "getrandom a"), guard(that((a->Ok_0) == 32, "len"),
            guard(ok(b, "getrandom b"),
            guard(that(bytes_a@ != bytes_b@, "identical random"), passed())))),
{
    let n = check_ok(a, "getrandom a")?;
    check(n == 32, "len")?;
    check_ok(b, "getrandom b")?;
    check(!bytes_eq(bytes_a, bytes_b), "identical random")?;
    Ok(())
}

/// A 16-byte draw fills all 16 bytes.
pub fn getrandom_partial(draw: SysVal) -> (r: TestResult)
    ensures
        r == guard(ok(draw, "getrandom"), guard(that((draw->Ok_0) == 16, "len"), passed())),
{
    let n = check_ok(draw, "getrandom")?;
    check(n == 16, "len")?;
    Ok(())
}

/// `sched_yield` succeeds.
pub fn sched_yield(y: Sys) -> (r: TestResult)
    ensures
        r == guard(ok(y, "sched_yield"), passed()),
{
    check_ok(y, "sched_yield")?;
    Ok(())
}

/// Both descriptor limits are positive.
pub fn prlimit_nofile_get(get: Result<Rlimit, Errno>) -> (r: TestResult)
    ensures
        r == guard(ok(get, "prlimit get"), guard(that((get->Ok_0).rlim_cur > 0, "soft limit zero"),
            guard(that((get->Ok_0).rlim_max > 0, "hard limit zero"), passed()))),
{
    let lim = check_ok(get, "prlimit get")?;
    check(lim.rlim_cur > 0, "soft limit zero")?;
    check(lim.rlim_max > 0, "hard limit zero")?;
    Ok(())
}

/// The soft descriptor limit is at least 32.
pub fn prlimit_nofile_positive(get: Result<Rlimit, Errno>) -> (r: TestResult)
    ensures
        r == guard(ok(get, "prlimit"),
            guard(that((get->Ok_0).rlim_cur >= 32, "nofile soft too small"), passed())),
{
    let lim = check_ok(get, "prlimit")?;
    check(lim.rlim_cur >= 32, "nofile soft too small")?;
    Ok(())
}

} // verus!
