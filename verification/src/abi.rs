//! Flag and constant values of the Linux x86-64 ABI that the checks compare
//! against.

use vstd::prelude::*;

verus! {

/// Seconds and nanoseconds, as `clock_gettime` and friends return them.
#[derive(Clone, Copy, Debug, PartialEq, Eq, Structural)]
pub struct Timespec {
    pub tv_sec: i64,
    pub tv_nsec: i64,
}

/// A resource limit pair, as `prlimit64` returns it.
#[derive(Clone, Copy, Debug, PartialEq, Eq, Structural)]
pub struct Rlimit {
    pub rlim_cur: u64,
    pub rlim_max: u64,
}

pub const O_RDONLY: i64 = 0;
pub const O_WRONLY: i64 = 1;
pub const O_RDWR: i64 = 2;
pub const O_ACCMODE: i64 = 3;
pub const O_APPEND: i64 = 0x400;
pub const O_NONBLOCK: i64 = 0x800;
pub const O_CLOEXEC: i64 = 0x80000;

pub const FD_CLOEXEC: i64 = 1;

pub const SOCK_STREAM: i64 = 1;
pub const SOCK_DGRAM: i64 = 2;

pub const POLLIN: i64 = 0x1;
pub const POLLOUT: i64 = 0x4;
pub const POLLHUP: i64 = 0x10;

pub const EPOLLIN: i64 = 0x1;
pub const EPOLLOUT: i64 = 0x4;
pub const EPOLLHUP: i64 = 0x10;

pub const SIGHUP: i32 = 1;
pub const SIGINT: i32 = 2;
pub const SIGKILL: i32 = 9;
pub const SIGUSR1: i32 = 10;
pub const SIGUSR2: i32 = 12;
pub const SIGALRM: i32 = 14;
pub const SIGTERM: i32 = 15;
pub const SIGCHLD: i32 = 17;

pub const F_SEAL_SEAL: i64 = 0x1;
pub const F_SEAL_SHRINK: i64 = 0x2;
pub const F_SEAL_GROW: i64 = 0x4;
pub const F_SEAL_WRITE: i64 = 0x8;

pub const S_IFMT: i64 = 0o170000;
pub const S_IFREG: i64 = 0o100000;
pub const S_IFDIR: i64 = 0o040000;
pub const S_IFCHR: i64 = 0o020000;
pub const S_IFIFO: i64 = 0o010000;
pub const S_IFLNK: i64 = 0o120000;
pub const S_IFSOCK: i64 = 0o140000;

pub const F_RDLCK: i64 = 0;
pub const F_WRLCK: i64 = 1;
pub const F_UNLCK: i64 = 2;

pub const AF_INET: i64 = 2;
pub const AF_UNIX: i64 = 1;

} // verus!
