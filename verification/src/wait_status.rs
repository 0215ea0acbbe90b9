//! Decoding of the status word that `wait4`/`waitpid` store.
//!
//! Bits 0..7 hold the terminating signal (0 for a normal exit, 0x7f for a
//! stop), bit 7 the core-dump flag, bits 8..15 the exit code or stop
//! signal.

use vstd::prelude::*;

verus! {

/// Bits 8..15 of the status: the exit code after a normal exit.
pub open spec fn spec_exit_code(status: i32) -> int {
    ((status as u32) as int / 256) % 256
}

/// Bits 0..6 of the status: the terminating signal, 0 after a normal exit.
pub open spec fn spec_term_sig(status: i32) -> int {
    (status as u32) as int % 128
}

/// Bits 0..7 of the status.
pub open spec fn spec_low_byte(status: i32) -> int {
    (status as u32) as int % 256
}

/// Exit code of a child that exited normally.
pub fn wexitstatus(status: i32) -> (r: i32)
    ensures
        r == spec_exit_code(status),
        0 <= r < 256,
{
    let u = status as u32;
    let r = (u >> 8u32) & 0xffu32;
    assert(r == (u / 256) % 256 && r < 256) by (bit_vector)
        requires
            r == (u >> 8u32) & 0xffu32,
    ;
    r as i32
}

/// Signal that terminated a child, 0 after a normal exit.
pub fn wtermsig(status: i32) -> (r: i32)
    ensures
        r == spec_term_sig(status),
        0 <= r < 128,
{
    let u = status as u32;
    let r = u & 0x7fu32;
    assert(r == u % 128 && r < 128) by (bit_vector)
        requires
            r == u & 0x7fu32,
    ;
    r as i32
}

/// Whether the child exited normally.
pub fn wifexited(status: i32) -> (r: bool)
    ensures
        r == (spec_term_sig(status) == 0),
{
    wtermsig(status) == 0
}

/// Whether the child was killed by a signal.
pub fn wifsignaled(status: i32) -> (r: bool)
    ensures
        r == (spec_term_sig(status) != 0 && spec_term_sig(status) != 0x7f),
{
    let s = wtermsig(status);
    s != 0 && s != 0x7f
}

/// Whether the child is stopped.
pub fn wifstopped(status: i32) -> (r: bool)
    ensures
        r == (spec_low_byte(status) == 0x7f),
{
    let u = status as u32;
    let b = u & 0xffu32;
    assert(b == u % 256) by (bit_vector)
        requires
            b == u & 0xffu32,
    ;
    b == 0x7f
}

/// Signal that stopped a stopped child.
pub fn wstopsig(status: i32) -> (r: i32)
    ensures
        r == spec_exit_code(status),
{
    wexitstatus(status)
}

/// The status word a child leaves when it exits with `code`.
pub open spec fn exited_status(code: int) -> i32 {
    (code * 256) as i32
}

/// The status word a child leaves when signal `sig` kills it.
pub open spec fn signaled_status(sig: int) -> i32 {
    sig as i32
}

/// A normal exit with code `code` decodes as exited, with that code.
pub proof fn lemma_exit_status_roundtrip(code: int)
    requires
        0 <= code < 256,
    ensures
        spec_term_sig(exited_status(code)) == 0,
        spec_exit_code(exited_status(code)) == code,
        spec_low_byte(exited_status(code)) != 0x7f,
{
    assert(exited_status(code) as u32 == code * 256);
}

/// A death by signal `sig` decodes as signaled, with that signal.
pub proof fn lemma_signal_status_roundtrip(sig: int)
    requires
        1 <= sig < 0x7f,
    ensures
        spec_term_sig(signaled_status(sig)) == sig,
        spec_term_sig(signaled_status(sig)) != 0,
        spec_term_sig(signaled_status(sig)) != 0x7f,
{
}

} // verus!
