//! `rt_sigprocmask` and `rt_sigpending`.

use vstd::prelude::*;
use crate::abi::SIGUSR1;
use crate::harness::{Sys, TestResult, check, check_ok, guard, nested, ok, passed, that};
use crate::sigset::{sigbit, spec_sigbit};

verus! {

/// Discarding a pending blocked signal: ignore it, unblock it, restore its
/// default action.
pub fn discard_pending(ignore: Sys, unblock: Sys, default: Sys) -> (r: TestResult)
    ensures
        r == guard(ok(ignore, "ignore"), guard(ok(unblock, "unblock"),
            guard(ok(default, "default"), passed()))),
{
    check_ok(ignore, "ignore")?;
    check_ok(unblock, "unblock")?;
    check_ok(default, "default")?;
    Ok(())
}

/// SIGUSR1 blocks and unblocks.
pub fn sigprocmask_block_unblock_roundtrip(block: Sys, unblock: Sys) -> (r: TestResult)
    ensures
        r == guard(ok(block, "block"), guard(ok(unblock, "unblock"), passed())),
{
    check_ok(block, "block")?;
    check_ok(unblock, "unblock")?;
    Ok(())
}

/// The mask read with `SIG_SETMASK` restores.
pub fn sigprocmask_setmask_restore(get: Sys, restore: Sys) -> (r: TestResult)
    ensures
        r == guard(ok(get, "get"), guard(ok(restore, "restore"), passed())),
{
    check_ok(get, "get")?;
    check_ok(restore, "restore")?;
    Ok(())
}

/// A blocked SIGUSR1 sent to the process does not kill it.
pub fn sigprocmask_block_sigusr1_kill_survives(
    block: Sys,
    kill: Sys,
    discard: TestResult,
) -> (r: TestResult)
    ensures
        r == guard(ok(block, "block"), guard(ok(kill, "kill self SIGUSR1"),
            guard(nested(discard), passed()))),
{
    check_ok(block, "block")?;
    check_ok(kill, "kill self SIGUSR1")?;
    discard?;
    Ok(())
}

/// A null set with an old-set pointer queries the mask.
pub fn sigprocmask_query_null_set(query: Sys) -> (r: TestResult)
    ensures
        r == guard(ok(query, "query"), passed()),
{
    check_ok(query, "query")?;
    Ok(())
}

/// Blocking twice then unblocking succeeds.
pub fn sigprocmask_block_twice(block1: Sys, block2: Sys, unblock: Sys) -> (r: TestResult)
    ensures
        r == guard(ok(block1, "block1"), guard(ok(block2, "block2"),
            guard(ok(unblock, "unblock"), passed()))),
{
    check_ok(block1, "block1")?;
    check_ok(block2, "block2")?;
    check_ok(unblock, "unblock")?;
    Ok(())
}

/// Setting the empty mask succeeds.
pub fn sigprocmask_unblock_all_clear(clear: Sys) -> (r: TestResult)
    ensures
        r == guard(ok(clear, "clear"), passed()),
{
    check_ok(clear, "clear")?;
    Ok(())
}

/// A blocked SIGUSR1 sent to the process shows as pending.
pub fn sigpending_after_block_kill(
    block: Sys,
    kill: Sys,
    pending_call: Sys,
    pending: u64,
    discard: TestResult,
) -> (r: TestResult)
    ensures
        r == guard(ok(block, "block"), guard(ok(kill, "kill"),
            guard(ok(pending_call, "sigpending"),
            guard(that(pending & spec_sigbit(SIGUSR1) != 0, "SIGUSR1 pending"),
            guard(nested(discard), passed()))))),
{
    check_ok(block, "block")?;
    check_ok(kill, "kill")?;
    check_ok(pending_call, "sigpending")?;
    check(pending & sigbit(SIGUSR1) != 0, "SIGUSR1 pending")?;
    discard?;
    Ok(())
}

/// The saved mask restores after blocking SIGUSR1.
pub fn sigprocmask_save_restore_exact(save: Sys, block: Sys, restore: Sys) -> (r: TestResult)
    ensures
        r == guard(ok(save, "save"), guard(ok(block, "block"),
            guard(ok(restore, "restore"), passed()))),
{
    check_ok(save, "save")?;
    check_ok(block, "block")?;
    check_ok(restore, "restore")?;
    Ok(())
}

/// SIGUSR1 and SIGUSR2 block together and are discarded on unblock.
pub fn sigprocmask_block_multiple_signals(
    block: Sys,
    kill1: Sys,
    kill2: Sys,
    ign1: Sys,
    ign2: Sys,
    unblock: Sys,
    dfl1: Sys,
    dfl2: Sys,
) -> (r: TestResult)
    ensures
        r == guard(ok(block, "block"), guard(ok(kill1, "kill1"), guard(ok(kill2, "kill2"),
            guard(ok(ign1, "ign1"), guard(ok(ign2, "ign2"), guard(ok(unblock, "unblock"),
            guard(ok(dfl1, "dfl1"), guard(ok(dfl2, "dfl2"), passed())))))))),
{
    check_ok(block, "block")?;
    check_ok(kill1, "kill1")?;
    check_ok(kill2, "kill2")?;
    check_ok(ign1, "ign1")?;
    check_ok(ign2, "ign2")?;
    check_ok(unblock, "unblock")?;
    check_ok(dfl1, "dfl1")?;
    check_ok(dfl2, "dfl2")?;
    Ok(())
}

/// `rt_sigpending` succeeds.
pub fn sigpending_empty_initially(pending: Sys) -> (r: TestResult)
    ensures
        r == guard(ok(pending, "sigpending"), passed()),
{
    check_ok(pending, "sigpending")?;
    Ok(())
}

} // verus!
