//! Error numbers of the Linux x86-64 syscall ABI and the decoding of a raw
//! syscall return value.

use vstd::prelude::*;

verus! {

/// A positive Linux error number, as found in the negated return value of a
/// failing syscall.
#[derive(Clone, Copy, Debug, PartialEq, Eq, Structural)]
pub struct Errno(pub i32);

pub const EPERM: i32 = 1;
pub const ENOENT: i32 = 2;
pub const ESRCH: i32 = 3;
pub const EINTR: i32 = 4;
pub const EIO: i32 = 5;
pub const ENXIO: i32 = 6;
pub const EBADF: i32 = 9;
pub const ECHILD: i32 = 10;
pub const EAGAIN: i32 = 11;
/// Same number as `EAGAIN` on Linux.
pub const EWOULDBLOCK: i32 = 11;
pub const ENOMEM: i32 = 12;
pub const EACCES: i32 = 13;
pub const EFAULT: i32 = 14;
pub const EBUSY: i32 = 16;
pub const EEXIST: i32 = 17;
pub const EXDEV: i32 = 18;
pub const ENOTDIR: i32 = 20;
pub const EISDIR: i32 = 21;
pub const EINVAL: i32 = 22;
pub const ENFILE: i32 = 23;
pub const EMFILE: i32 = 24;
pub const ENOTTY: i32 = 25;
pub const ENOSPC: i32 = 28;
pub const ESPIPE: i32 = 29;
pub const EPIPE: i32 = 32;
pub const ERANGE: i32 = 34;
pub const ENOSYS: i32 = 38;
pub const ENOTEMPTY: i32 = 39;
pub const ELOOP: i32 = 40;
pub const ENOMSG: i32 = 42;
pub const EIDRM: i32 = 43;
pub const ENOPROTOOPT: i32 = 92;
pub const EOPNOTSUPP: i32 = 95;
/// Same number as `EOPNOTSUPP` on Linux.
pub const ENOTSUP: i32 = 95;
pub const EADDRINUSE: i32 = 98;
pub const ECONNRESET: i32 = 104;
pub const ENOTCONN: i32 = 107;
pub const ETIMEDOUT: i32 = 110;
pub const ECONNREFUSED: i32 = 111;
pub const EINPROGRESS: i32 = 115;

/// Largest error number the kernel returns: raw results in `-4095..=-1`
/// are errors.
pub const MAX_ERRNO: i64 = 4095;

/// What a raw syscall return value means: a result when it lies outside
/// `-4095..=-1`, the negated error number when inside.
pub open spec fn spec_decode_ret(raw: i64) -> Result<i64, Errno> {
    if -MAX_ERRNO <= raw && raw < 0 {
        Err(Errno((-raw) as i32))
    } else {
        Ok(raw)
    }
}

/// Splits a raw syscall return value into its result or its error number.
pub fn decode_ret(raw: i64) -> (r: Result<i64, Errno>)
    ensures
        r == spec_decode_ret(raw),
{
    if -MAX_ERRNO <= raw && raw < 0 {
        Err(Errno((-raw) as i32))
    } else {
        Ok(raw)
    }
}

/// Encodes an error number as the raw value the kernel returns for it.
pub fn encode_err(e: Errno) -> (raw: i64)
    requires
        1 <= e.0 <= MAX_ERRNO,
    ensures
        raw == -(e.0 as int),
{
    -(e.0 as i64)
}

/// Decoding the encoding of an error number gives it back.
pub proof fn lemma_decode_encode_err(e: Errno)
    requires
        1 <= e.0 <= MAX_ERRNO,
    ensures
        spec_decode_ret(-(e.0 as int) as i64) == Err::<i64, Errno>(e),
{
}

/// A raw value that decodes as a result is that result.
pub proof fn lemma_decode_ok_is_identity(raw: i64)
    requires
        spec_decode_ret(raw) is Ok,
    ensures
        spec_decode_ret(raw) == Ok::<i64, Errno>(raw),
        raw >= 0 || raw < -MAX_ERRNO,
{
}

} // verus!
