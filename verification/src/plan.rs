//! The calls a test makes besides its checks: releasing what it holds on
//! the way out (descriptors, mappings, children, timers, queues) and putting
//! back what it changed. Each test that does more than pass or fail has a
//! function here or in its module that says, from the outcomes so far,
//! which of these calls come next and in what order.

use vstd::prelude::*;

verus! {

/// One call a test makes to release or restore something.
#[derive(Clone, Copy, Debug, PartialEq, Eq, Structural)]
pub enum Act {
    /// `close(fd)`.
    Close(i64),
    /// `kill(pid, SIGKILL)`.
    Kill(i64),
    /// `kill(pid, SIGKILL)`, then a blocking `wait4(pid, 0)`.
    KillReap(i64),
    /// A blocking `wait4(pid, 0)`.
    Reap(i64),
    /// `munmap(addr, len)`.
    Munmap(u64, u64),
    /// `timer_delete` of the test's timer.
    TimerDelete,
    /// `mq_unlink` of the test's queue name.
    MqUnlink,
    /// `sched_setaffinity(0, mask)` with the mask read at the start.
    RestoreAffinity,
}

} // verus!
