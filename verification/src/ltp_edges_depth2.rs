//! Deeper edge cases: fcntl record locks, epoll edge triggering, eventfd
//! semaphores, splice and tee, socket options, wait status, CPU affinity,
//! memfd seals, absolute timerfd deadlines, inotify and pidfd.
//!
//! Functions named after a family of tests (`flock_setlk`, `splice_size`,
//! ...) are the verdict every test of that family shares, with the family's
//! parameter as an argument.

use vstd::prelude::*;
use crate::timerfd::Itimerspec;
use crate::plan::Act;
use crate::abi::{
    EPOLLIN, EPOLLOUT, FD_CLOEXEC, F_SEAL_GROW, F_SEAL_SHRINK, F_UNLCK, Timespec,
};
use crate::bytes::{
    alphabet_pattern, any_nonzero, bytes_eq, i32_from_ne_bytes, le_u32, le_u64,
    make_alphabet_pattern, u64_from_ne_bytes,
};
use crate::errno::{
    Errno, EACCES, EAGAIN, EBUSY, EINVAL, ENOMEM, ENOSYS, ENOTSUP, EOPNOTSUPP, EPERM,
};
use crate::harness::{
    Sys, SysVal, TestResult, check, check_err, check_ok, errs, fail, fails_with, guard, nested, ok,
    only_if, passed, that,
};
use crate::wait_status::{spec_exit_code, spec_term_sig, wexitstatus, wifexited, wifsignaled, wtermsig};

verus! {

/// Errors under which a probe counts as unsupported here rather than failed.
pub open spec fn is_soft(e: Errno) -> bool {
    e.0 == EINVAL || e.0 == ENOSYS || e.0 == EPERM || e.0 == EOPNOTSUPP || e.0 == ENOTSUP
        || e.0 == ENOMEM || e.0 == EBUSY || e.0 == EACCES
}

/// Whether `e` means the probed feature is unsupported rather than broken.
pub fn soft(e: Errno) -> (r: bool)
    ensures
        r == is_soft(e),
{
    e.0 == EINVAL || e.0 == ENOSYS || e.0 == EPERM || e.0 == EOPNOTSUPP || e.0 == ENOTSUP
        || e.0 == ENOMEM || e.0 == EBUSY || e.0 == EACCES
}

/// The checks of the semaphore reads of `eventfd_sem_init`: each read
/// succeeds, returns eight bytes, and decodes to 1.
pub open spec fn sem_reads(reads: Seq<(SysVal, [u8; 8])>, rest: TestResult) -> TestResult
    decreases reads.len(),
{
    if reads.len() == 0 {
        rest
    } else {
        guard(ok(reads[0].0, "r"), guard(that(reads[0].0->Ok_0 == 8, "n"),
            guard(that(le_u64(reads[0].1@) == 1, "sem"), sem_reads(reads.drop_first(), rest))))
    }
}

/// The semaphore reads pass only when every read succeeded with eight
/// bytes that encode 1 (`[1, 0, 0, 0, 0, 0, 0, 0]`), and then the test goes
/// on with `rest`.
pub proof fn lemma_sem_reads_all_one(reads: Seq<(SysVal, [u8; 8])>, rest: TestResult)
    ensures
        sem_reads(reads, rest) is Ok ==> rest is Ok && forall|i: int| #![trigger reads[i]] 0 <= i < reads.len()
            ==> reads[i].0 == Ok::<i64, Errno>(8) && reads[i].1@ == seq![1u8, 0u8, 0u8, 0u8, 0u8, 0u8, 0u8, 0u8],
    decreases reads.len(),
{
    if reads.len() > 0 {
        lemma_sem_reads_all_one(reads.drop_first(), rest);
        if sem_reads(reads, rest) is Ok {
            assert(reads[0].0 is Ok && reads[0].0->Ok_0 == 8);
            assert(reads[0].0 == Ok::<i64, Errno>(8));
            assert(sem_reads(reads.drop_first(), rest) is Ok);
            let b = reads[0].1@;
            assert(b.len() == 8);
            assert(le_u32(b) == b[0] + 256 * b[1] + 65536 * b[2] + 16777216 * b[3]);
            assert(b.subrange(4, 8)[0] == b[4] && b.subrange(4, 8)[1] == b[5] && b.subrange(4, 8)[2]
                == b[6] && b.subrange(4, 8)[3] == b[7]);
            assert(b =~= seq![1u8, 0u8, 0u8, 0u8, 0u8, 0u8, 0u8, 0u8]);
            assert forall|i: int| #![trigger reads[i]] 0 <= i < reads.len() implies reads[i].0 == Ok::<i64, Errno>(8)
                && reads[i].1@ == seq![1u8, 0u8, 0u8, 0u8, 0u8, 0u8, 0u8, 0u8] by {
                if i > 0 {
                    let t = reads.drop_first();
                    assert(sem_reads(t, rest) is Ok);
                    assert(0 <= i - 1 < t.len());
                    assert(t[i - 1] == reads[i]);
                    assert(t[i - 1].0 == Ok::<i64, Errno>(8) && t[i - 1].1@ == seq![1u8, 0u8, 0u8, 0u8, 0u8, 0u8, 0u8, 0u8]);
                }
            }
        }
    }
}

/// Verdict shared by the `d2_efd_sem_init*` tests: a semaphore eventfd
/// created with count `k` yields `k` reads of 1 (`reads` holds each read's
/// outcome and bytes); an unsupported eventfd passes.
pub fn eventfd_sem_init(create: Sys, reads: &[(SysVal, [u8; 8])], close: Sys) -> (r: TestResult)
    ensures
        r == guard(that(create is Ok || is_soft(create->Err_0), "eventfd"),
            guard(only_if(create is Ok, nested(sem_reads(reads@, guard(ok(close, "c"), passed())))),
            passed())),
{
    match create {
        Ok(_) => {},
        Err(e) => {
            if soft(e) {
                return Ok(());
            }
            return Err(fail("eventfd"));
        },
    }
    let ghost tail = guard(ok(close, "c"), passed());
    assert(reads@.skip(0) =~= reads@);
    let mut i: usize = 0;
    while i < reads.len()
        invariant
            i <= reads.len(),
            create is Ok,
            tail == guard(ok(close, "c"), passed()),
            sem_reads(reads@, tail) == sem_reads(reads@.skip(i as int), tail),
        decreases reads.len() - i,
    {
        let (read, bytes) = reads[i];
        assert(reads@.skip(i as int).drop_first() =~= reads@.skip(i + 1));
        assert(reads@.skip(i as int)[0] == reads@[i as int]);
        let n = check_ok(read, "r")?;
        check(n == 8, "n")?;
        check(u64_from_ne_bytes(bytes) == 1, "sem")?;
        i = i + 1;
    }
    assert(reads@.skip(i as int) =~= Seq::<(SysVal, [u8; 8])>::empty());
    check_ok(close, "c")?;
    Ok(())
}

/// The lowest set bit of `b` at or above bit `k`, as a one-bit value; 0
/// when there is none.
pub open spec fn lowest_bit_from(b: u8, k: nat) -> u8
    decreases 8 - k,
{
    if k >= 8 {
        0
    } else if b & (1u8 << k) != 0 {
        1u8 << k
    } else {
        lowest_bit_from(b, k + 1)
    }
}

/// The lowest set bit of `b`, as a one-bit value; 0 for `b == 0`.
pub fn lowest_bit(b: u8) -> (r: u8)
    ensures
        r == lowest_bit_from(b, 0),
{
    let mut k: u8 = 0;
    while k < 8
        invariant
            k <= 8,
            lowest_bit_from(b, 0) == lowest_bit_from(b, k as nat),
        decreases 8 - k,
    {
        if b & (1u8 << k) != 0 {
            return 1u8 << k;
        }
        k = k + 1;
    }
    0
}

/// The affinity mask that keeps only the first CPU of `mask`: the lowest
/// set bit of its first nonzero byte, all other bytes zero.
pub open spec fn first_cpu_mask(mask: Seq<u8>) -> Seq<u8> {
    Seq::new(mask.len(), |i: int|
        if mask[i] != 0 && forall|j: int| 0 <= j < i ==> mask[j] == 0 {
            lowest_bit_from(mask[i], 0)
        } else {
            0u8
        })
}

/// Builds `first_cpu_mask(mask)`.
pub fn first_cpu_only(mask: &[u8]) -> (one: Vec<u8>)
    ensures
        one@ == first_cpu_mask(mask@),
{
    let mut one: Vec<u8> = Vec::new();
    let mut found = false;
    let mut i: usize = 0;
    while i < mask.len()
        invariant
            i <= mask.len(),
            one@.len() == i,
            found == exists|j: int| 0 <= j < i && mask@[j] != 0,
            forall|j: int| 0 <= j < i ==> one@[j] == first_cpu_mask(mask@)[j],
        decreases mask.len() - i,
    {
        if !found && mask[i] != 0 {
            one.push(lowest_bit(mask[i]));
            found = true;
        } else {
            one.push(0);
        }
        assert(one@[i as int] == first_cpu_mask(mask@)[i as int]);
        i = i + 1;
    }
    assert(one@ =~= first_cpu_mask(mask@));
    one
}

/// One second in nanoseconds.
pub const NSEC_PER_SEC: i64 = 1_000_000_000;

/// The absolute deadline `nsec` nanoseconds after `now`, with the
/// nanosecond field carried into seconds once it reaches one second.
pub fn deadline_after(now: Timespec, nsec: i64) -> (t: Timespec)
    requires
        0 <= now.tv_nsec < NSEC_PER_SEC,
        0 <= nsec < NSEC_PER_SEC,
        now.tv_sec < i64::MAX,
    ensures
        t.tv_sec * NSEC_PER_SEC + t.tv_nsec == now.tv_sec * NSEC_PER_SEC + now.tv_nsec + nsec,
        0 <= t.tv_nsec < NSEC_PER_SEC,
{
    let total = now.tv_nsec + nsec;
    if total >= NSEC_PER_SEC {
        Timespec { tv_sec: now.tv_sec + 1, tv_nsec: total - NSEC_PER_SEC }
    } else {
        Timespec { tv_sec: now.tv_sec, tv_nsec: total }
    }
}

/// The setting the `d2_tfd_abs_*` tests arm their timerfd with, as an
/// absolute time: no interval, expiry `nsec` nanoseconds after `now` (see
/// `deadline_after`).
pub fn abs_timer_setting(now: Timespec, nsec: i64) -> (its: Itimerspec)
    requires
        0 <= now.tv_nsec < NSEC_PER_SEC,
        0 <= nsec < NSEC_PER_SEC,
        now.tv_sec < i64::MAX,
    ensures
        its.interval == (Timespec { tv_sec: 0, tv_nsec: 0 }),
        its.value.tv_sec * NSEC_PER_SEC + its.value.tv_nsec == now.tv_sec * NSEC_PER_SEC
            + now.tv_nsec + nsec,
        0 <= its.value.tv_nsec < NSEC_PER_SEC,
{
    Itimerspec { interval: Timespec { tv_sec: 0, tv_nsec: 0 }, value: deadline_after(now, nsec) }
}

/// Verdict shared by the `d2_fcntl_{rd,wr}_*` tests: a read or write lock
/// over some range of a ten-byte file is taken with `F_SETLK` and released.
pub fn flock_setlk(
    tmp: Sys,
    create: Sys,
    write: Sys,
    lock: Sys,
    unlock: Sys,
    close: Sys,
) -> (r: TestResult)
    ensures
        r == guard(ok(tmp, "t"), guard(ok(create, "c"), guard(ok(write, "w"), guard(ok(lock, "lk"),
            guard(ok(unlock, "un"), guard(ok(close, "cl"), passed())))))),
{
    check_ok(tmp, "t")?;
    check_ok(create, "c")?;
    check_ok(write, "w")?;
    check_ok(lock, "lk")?;
    check_ok(unlock, "un")?;
    check_ok(close, "cl")?;
    Ok(())
}

/// Verdict shared by the `d2_fcntl_setlkw_*` tests: a lock taken with
/// `F_SETLKW` on an empty file and released.
pub fn flock_setlkw(tmp: Sys, create: Sys, lock: Sys, unlock: Sys, close: Sys) -> (r: TestResult)
    ensures
        r == guard(ok(tmp, "t"), guard(ok(create, "c"), guard(ok(lock, "lk"),
            guard(ok(unlock, "un"), guard(ok(close, "cl"), passed()))))),
{
    check_ok(tmp, "t")?;
    check_ok(create, "c")?;
    check_ok(lock, "lk")?;
    check_ok(unlock, "un")?;
    check_ok(close, "cl")?;
    Ok(())
}

/// Verdict shared by the `d2_fcntl_getlk_*` tests: `F_GETLK` on a file
/// nobody locks answers `F_UNLCK`.
pub fn flock_getlk(tmp: Sys, create: Sys, getlk: Sys, l_type: i64, close: Sys) -> (r: TestResult)
    ensures
        r == guard(ok(tmp, "t"), guard(ok(create, "c"), guard(ok(getlk, "get"),
            guard(that(l_type == F_UNLCK, "unlocked"), guard(ok(close, "cl"), passed()))))),
{
    check_ok(tmp, "t")?;
    check_ok(create, "c")?;
    check_ok(getlk, "get")?;
    check(l_type == F_UNLCK, "unlocked")?;
    check_ok(close, "cl")?;
    Ok(())
}

/// Two adjacent read locks taken and released.
pub fn d2_fcntl_two_rd_locks(
    tmp: Sys,
    create: Sys,
    lock_a: Sys,
    lock_b: Sys,
    unlock_a: Sys,
    unlock_b: Sys,
    close: Sys,
) -> (r: TestResult)
    ensures
        r == guard(ok(tmp, "t"), guard(ok(create, "c"), guard(ok(lock_a, "a"),
            guard(ok(lock_b, "b"), guard(ok(unlock_a, "ua"), guard(ok(unlock_b, "ub"),
            guard(ok(close, "cl"), passed()))))))),
{
    check_ok(tmp, "t")?;
    check_ok(create, "c")?;
    check_ok(lock_a, "a")?;
    check_ok(lock_b, "b")?;
    check_ok(unlock_a, "ua")?;
    check_ok(unlock_b, "ub")?;
    check_ok(close, "cl")?;
    Ok(())
}

/// A whole-file read lock upgraded in place to a write lock.
pub fn d2_fcntl_upgrade_rd_to_wr(
    tmp: Sys,
    create: Sys,
    read_lock: Sys,
    write_lock: Sys,
    unlock: Sys,
    close: Sys,
) -> (r: TestResult)
    ensures
        r == guard(ok(tmp, "t"), guard(ok(create, "c"), guard(ok(read_lock, "rd"),
            guard(ok(write_lock, "wr"), guard(ok(unlock, "un"),
            guard(ok(close, "cl"), passed())))))),
{
    check_ok(tmp, "t")?;
    check_ok(create, "c")?;
    check_ok(read_lock, "rd")?;
    check_ok(write_lock, "wr")?;
    check_ok(unlock, "un")?;
    check_ok(close, "cl")?;
    Ok(())
}

/// Verdict shared by the `d2_epoll_level_in*` tests: after a byte is
/// written, `epoll_wait` reports the pipe read end with `EPOLLIN` (`events`
/// is the first returned event mask).
pub fn epoll_pipe_level(
    pipe: Sys,
    create: Sys,
    add: Sys,
    write: Sys,
    wait: SysVal,
    events: u32,
    close_ep: Sys,
    close_r: Sys,
    close_w: Sys,
) -> (r: TestResult)
    ensures
        r == guard(ok(pipe, "pipe"), guard(ok(create, "ep"), guard(ok(add, "add"),
            guard(ok(write, "w"), guard(ok(wait, "wait"), guard(that((wait->Ok_0) >= 1, "ready"),
            guard(that(events as i64 & EPOLLIN != 0, "in"), guard(ok(close_ep, "cep"),
            guard(ok(close_r, "cr"), guard(ok(close_w, "cw"), passed())))))))))),
{
    check_ok(pipe, "pipe")?;
    check_ok(create, "ep")?;
    check_ok(add, "add")?;
    check_ok(write, "w")?;
    let n = check_ok(wait, "wait")?;
    check(n >= 1, "ready")?;
    check(events as i64 & EPOLLIN != 0, "in")?;
    check_ok(close_ep, "cep")?;
    check_ok(close_r, "cr")?;
    check_ok(close_w, "cw")?;
    Ok(())
}

/// Edge-triggered `EPOLLIN`: one report after a write, none while no new
/// data arrives, one again after the next write.
pub fn d2_epoll_et_edge_rearm(
    pipe: Sys,
    create: Sys,
    add: Sys,
    write1: Sys,
    wait1: SysVal,
    wait2: SysVal,
    write2: Sys,
    wait3: SysVal,
    close_ep: Sys,
    close_r: Sys,
    close_w: Sys,
) -> (r: TestResult)
    ensures
        r == guard(ok(pipe, "pipe"), guard(ok(create, "ep"), guard(ok(add, "add"),
            guard(ok(write1, "w"), guard(ok(wait1, "w1"), guard(that((wait1->Ok_0) >= 1, "e1"),
            guard(ok(wait2, "w2"), guard(that((wait2->Ok_0) == 0, "no edge"),
            guard(ok(write2, "w2"), guard(ok(wait3, "w3"), guard(that((wait3->Ok_0) >= 1, "e2"),
            guard(ok(close_ep, "cep"), guard(ok(close_r, "cr"),
            guard(ok(close_w, "cw"), passed())))))))))))))),
{
    check_ok(pipe, "pipe")?;
    check_ok(create, "ep")?;
    check_ok(add, "add")?;
    check_ok(write1, "w")?;
    let n1 = check_ok(wait1, "w1")?;
    check(n1 >= 1, "e1")?;
    let n2 = check_ok(wait2, "w2")?;
    check(n2 == 0, "no edge")?;
    check_ok(write2, "w2")?;
    let n3 = check_ok(wait3, "w3")?;
    check(n3 >= 1, "e2")?;
    check_ok(close_ep, "cep")?;
    check_ok(close_r, "cr")?;
    check_ok(close_w, "cw")?;
    Ok(())
}

/// An edge-triggered registration switched to level-triggered with
/// `EPOLL_CTL_MOD` still reports readiness.
pub fn d2_epoll_mod_et_to_level(
    pipe: Sys,
    create: Sys,
    add: Sys,
    modify: Sys,
    write: Sys,
    wait: SysVal,
    del: Sys,
    close_ep: Sys,
    close_r: Sys,
    close_w: Sys,
) -> (r: TestResult)
    ensures
        r == guard(ok(pipe, "pipe"), guard(ok(create, "ep"), guard(ok(add, "add"),
            guard(ok(modify, "mod"), guard(ok(write, "w"), guard(ok(wait, "wait"),
            guard(that((wait->Ok_0) >= 1, "rdy"), guard(ok(del, "del"), guard(ok(close_ep, "cep"),
            guard(ok(close_r, "cr"), guard(ok(close_w, "cw"), passed()))))))))))),
{
    check_ok(pipe, "pipe")?;
    check_ok(create, "ep")?;
    check_ok(add, "add")?;
    check_ok(modify, "mod")?;
    check_ok(write, "w")?;
    let n = check_ok(wait, "wait")?;
    check(n >= 1, "rdy")?;
    check_ok(del, "del")?;
    check_ok(close_ep, "cep")?;
    check_ok(close_r, "cr")?;
    check_ok(close_w, "cw")?;
    Ok(())
}

/// An empty pipe's write end is reported writable (`EPOLLOUT`).
pub fn d2_epoll_out_on_pipe_w(
    pipe: Sys,
    create: Sys,
    add: Sys,
    wait: SysVal,
    events: u32,
    close_ep: Sys,
    close_r: Sys,
    close_w: Sys,
) -> (r: TestResult)
    ensures
        r == guard(ok(pipe, "pipe"), guard(ok(create, "ep"), guard(ok(add, "add"),
            guard(ok(wait, "wait"), guard(that((wait->Ok_0) >= 1, "out ready"),
            guard(that(events as i64 & EPOLLOUT != 0, "out"), guard(ok(close_ep, "cep"),
            guard(ok(close_r, "cr"), guard(ok(close_w, "cw"), passed()))))))))),
{
    check_ok(pipe, "pipe")?;
    check_ok(create, "ep")?;
    check_ok(add, "add")?;
    let n = check_ok(wait, "wait")?;
    check(n >= 1, "out ready")?;
    check(events as i64 & EPOLLOUT != 0, "out")?;
    check_ok(close_ep, "cep")?;
    check_ok(close_r, "cr")?;
    check_ok(close_w, "cw")?;
    Ok(())
}

/// A semaphore eventfd counted up by 3 yields three reads of 1, then
/// `EAGAIN`; an unsupported eventfd passes.
pub fn d2_efd_sem_write_then_reads(
    create: Sys,
    write: Sys,
    reads: [Sys; 3],
    values: [[u8; 8]; 3],
    fourth: Sys,
    close: Sys,
) -> (r: TestResult)
    ensures
        r == guard(that(create is Ok || is_soft(create->Err_0), "eventfd"),
            guard(only_if(create is Ok, ok(write, "w")),
            guard(only_if(create is Ok, ok(reads[0], "r")),
            guard(only_if(create is Ok, that(le_u64(values[0]@) == 1, "one")),
            guard(only_if(create is Ok, ok(reads[1], "r")),
            guard(only_if(create is Ok, that(le_u64(values[1]@) == 1, "one")),
            guard(only_if(create is Ok, ok(reads[2], "r")),
            guard(only_if(create is Ok, that(le_u64(values[2]@) == 1, "one")),
            guard(only_if(create is Ok, errs(fourth, EAGAIN, "empty")),
            guard(only_if(create is Ok, ok(close, "c")), passed())))))))))),
{
    check(match create { Ok(_) => true, Err(e) => soft(e) }, "eventfd")?;
    if create.is_ok() {
        check_ok(write, "w")?;
        check_ok(reads[0], "r")?;
        check(u64_from_ne_bytes(values[0]) == 1, "one")?;
        check_ok(reads[1], "r")?;
        check(u64_from_ne_bytes(values[1]) == 1, "one")?;
        check_ok(reads[2], "r")?;
        check(u64_from_ne_bytes(values[2]) == 1, "one")?;
        check_err(fourth, EAGAIN, "empty")?;
        check_ok(close, "c")?;
    }
    Ok(())
}

/// Verdict shared by the `d2_splice_*` tests: splicing `n` pattern bytes
/// between pipes moves all `n`, and reading the second pipe returns the
/// pattern (`buf` is the `n`-byte read buffer); an unsupported splice
/// passes.
pub fn splice_size(
    n: usize,
    pipe1: Sys,
    pipe2: Sys,
    write: Sys,
    splice: SysVal,
    close_w1: Sys,
    close_w2: Sys,
    read: SysVal,
    buf: &[u8],
    close_r1: Sys,
    close_r2: Sys,
) -> (r: TestResult)
    ensures
        r == guard(ok(pipe1, "p1"), guard(ok(pipe2, "p2"), guard(ok(write, "w"),
            guard(that(splice is Ok || is_soft(splice->Err_0), "splice"),
            guard(only_if(splice is Ok, that(splice->Ok_0 == n as i64, "n")),
            guard(only_if(splice is Ok, ok(close_w1, "cw1")),
            guard(only_if(splice is Ok, ok(close_w2, "cw2")),
            guard(only_if(splice is Ok, ok(read, "r")),
            guard(only_if(splice is Ok, that((read->Ok_0) == n as i64, "rn")),
            guard(only_if(splice is Ok, that(buf@ == alphabet_pattern(n as nat), "data")),
            guard(only_if(splice is Ok, ok(close_r1, "cr1")),
            guard(only_if(splice is Ok, ok(close_r2, "cr2")), passed())))))))))))),
{
    check_ok(pipe1, "p1")?;
    check_ok(pipe2, "p2")?;
    check_ok(write, "w")?;
    check(match splice { Ok(_) => true, Err(e) => soft(e) }, "splice")?;
    if splice.is_ok() {
        check(match splice { Ok(v) => v == n as i64, Err(_) => true }, "n")?;
        check_ok(close_w1, "cw1")?;
        check_ok(close_w2, "cw2")?;
        let rn = check_ok(read, "r")?;
        check(rn == n as i64, "rn")?;
        check(bytes_eq(buf, make_alphabet_pattern(n).as_slice()), "data")?;
        check_ok(close_r1, "cr1")?;
        check_ok(close_r2, "cr2")?;
    }
    Ok(())
}

/// Verdict shared by the `d2_tee_*` tests: `tee` of `n` buffered bytes
/// duplicates all `n`, or is unsupported.
pub fn tee_size(
    n: usize,
    pipe1: Sys,
    pipe2: Sys,
    write: Sys,
    tee: SysVal,
    close_w1: Sys,
    close_w2: Sys,
    close_r1: Sys,
    close_r2: Sys,
) -> (r: TestResult)
    ensures
        r == guard(ok(pipe1, "p1"), guard(ok(pipe2, "p2"), guard(ok(write, "w"),
            guard(that(tee is Ok || is_soft(tee->Err_0), "tee"),
            guard(only_if(tee is Ok, that((tee->Ok_0) == n as i64, "n")),
            guard(ok(close_w1, "cw1"), guard(ok(close_w2, "cw2"), guard(ok(close_r1, "cr1"),
            guard(ok(close_r2, "cr2"), passed()))))))))),
{
    check_ok(pipe1, "p1")?;
    check_ok(pipe2, "p2")?;
    check_ok(write, "w")?;
    check(match tee { Ok(_) => true, Err(e) => soft(e) }, "tee")?;
    if let Ok(v) = tee {
        check(v == n as i64, "n")?;
    }
    check_ok(close_w1, "cw1")?;
    check_ok(close_w2, "cw2")?;
    check_ok(close_r1, "cr1")?;
    check_ok(close_r2, "cr2")?;
    Ok(())
}

/// Verdict shared by the `d2_so_*` read tests: an integer socket option
/// reads back at least four bytes, or is unsupported.
pub fn sockopt_get_i32(socket: Sys, get: SysVal, close: Sys) -> (r: TestResult)
    ensures
        r == guard(ok(socket, "sock"), guard(that(get is Ok || is_soft(get->Err_0), "getsockopt"),
            guard(only_if(get is Ok, that((get->Ok_0) >= 4, "len")),
            guard(ok(close, "c"), passed())))),
{
    check_ok(socket, "sock")?;
    check(match get { Ok(_) => true, Err(e) => soft(e) }, "getsockopt")?;
    if let Ok(len) = get {
        check(len >= 4, "len")?;
    }
    check_ok(close, "c")?;
    Ok(())
}

/// Verdict shared by the `d2_so_set_*` tests: a boolean socket option is
/// switched on, or is unsupported.
pub fn sockopt_set_bool(socket: Sys, set: Sys, close: Sys) -> (r: TestResult)
    ensures
        r == guard(ok(socket, "sock"), guard(that(set is Ok || is_soft(set->Err_0), "setsockopt"),
            guard(ok(close, "c"), passed()))),
{
    check_ok(socket, "sock")?;
    check(match set { Ok(_) => true, Err(e) => soft(e) }, "setsockopt")?;
    check_ok(close, "c")?;
    Ok(())
}

/// `SO_RCVBUF` set to 32768 reads back at least half of that.
pub fn d2_so_set_rcvbuf_roundtrip(
    socket: Sys,
    set: Sys,
    get: Sys,
    val: [u8; 4],
    close: Sys,
) -> (r: TestResult)
    ensures
        r == guard(ok(socket, "sock"), guard(ok(set, "set"), guard(ok(get, "get"),
            guard(that(le_u32(val@) as i32 >= 16_384, "raised"), guard(ok(close, "c"), passed()))))),
{
    check_ok(socket, "sock")?;
    check_ok(set, "set")?;
    check_ok(get, "get")?;
    check(i32_from_ne_bytes(val) >= 32_768i32 / 2, "raised")?;
    check_ok(close, "c")?;
    Ok(())
}

/// `SO_SNDBUF` set to 16384 reads back at least half of that.
pub fn d2_so_set_sndbuf_roundtrip(
    socket: Sys,
    set: Sys,
    get: Sys,
    val: [u8; 4],
    close: Sys,
) -> (r: TestResult)
    ensures
        r == guard(ok(socket, "sock"), guard(ok(set, "set"), guard(ok(get, "get"),
            guard(that(le_u32(val@) as i32 >= 8_192, "raised"), guard(ok(close, "c"), passed()))))),
{
    check_ok(socket, "sock")?;
    check_ok(set, "set")?;
    check_ok(get, "get")?;
    check(i32_from_ne_bytes(val) >= 16_384i32 / 2, "raised")?;
    check_ok(close, "c")?;
    Ok(())
}

/// `SOCK_CLOEXEC` on `socket` gives a descriptor with `FD_CLOEXEC`.
pub fn d2_socket_cloexec_nonblock(socket: Sys, getfd: SysVal, close: Sys) -> (r: TestResult)
    ensures
        r == guard(ok(socket, "sock"), guard(ok(getfd, "fd"),
            guard(that((getfd->Ok_0) & FD_CLOEXEC != 0, "cloexec"),
            guard(ok(close, "c"), passed())))),
{
    check_ok(socket, "sock")?;
    let fl = check_ok(getfd, "fd")?;
    check(fl & FD_CLOEXEC != 0, "cloexec")?;
    check_ok(close, "c")?;
    Ok(())
}

/// Verdict shared by the `d2_wait_exit_*` tests: a child exiting with
/// `code` is reaped as exited, with that code, not signaled.
pub fn wait_exit_code(code: i32, fork: Sys, wait: Sys, status: i32) -> (r: TestResult)
    ensures
        r == guard(ok(fork, "fork"), guard(ok(wait, "wait"),
            guard(that(spec_term_sig(status) == 0, "exited"),
            guard(that(spec_exit_code(status) == code, "code"),
            guard(that(!(spec_term_sig(status) != 0 && spec_term_sig(status) != 0x7f), "not sig"), passed()))))),
{
    check_ok(fork, "fork")?;
    check_ok(wait, "wait")?;
    check(wifexited(status), "exited")?;
    check(wexitstatus(status) == code, "code")?;
    check(!wifsignaled(status), "not sig")?;
    Ok(())
}

/// Verdict shared by the `d2_wait_sig*` tests: a sleeping child sent `sig`
/// is reaped as killed by `sig`, not exited.
pub fn wait_termsig(sig: i32, fork: Sys, kill: Sys, wait: Sys, status: i32) -> (r: TestResult)
    ensures
        r == guard(ok(fork, "fork"), guard(ok(kill, "kill"), guard(ok(wait, "wait"),
            guard(that(spec_term_sig(status) != 0 && spec_term_sig(status) != 0x7f, "signaled"),
            guard(that(spec_term_sig(status) == sig, "sig"),
            guard(that(spec_term_sig(status) != 0, "not exit"), passed())))))),
{
    check_ok(fork, "fork")?;
    check_ok(kill, "kill")?;
    check_ok(wait, "wait")?;
    check(wifsignaled(status), "signaled")?;
    check(wtermsig(status) == sig, "sig")?;
    check(!wifexited(status), "not exit")?;
    Ok(())
}

/// The own affinity mask is non-empty, and setting it back leaves it
/// unchanged; an unsupported `sched_setaffinity` passes.
pub fn d2_sched_affinity_roundtrip(
    get: Sys,
    mask: &[u8],
    set: Sys,
    get2: Sys,
    again: &[u8],
) -> (r: TestResult)
    ensures
        r == guard(ok(get, "get"),
            guard(that(exists|i: int| 0 <= i < mask@.len() && mask@[i] != 0, "nonempty"),
            guard(that(set is Ok || is_soft(set->Err_0), "setaffinity"),
            guard(only_if(set is Ok, ok(get2, "get2")),
            guard(only_if(set is Ok, that(mask@ == again@, "same")), passed()))))),
{
    check_ok(get, "get")?;
    check(any_nonzero(mask), "nonempty")?;
    check(match set { Ok(_) => true, Err(e) => soft(e) }, "setaffinity")?;
    if set.is_ok() {
        check_ok(get2, "get2")?;
        check(bytes_eq(mask, again), "same")?;
    }
    Ok(())
}

/// The mask read by own pid is accepted back, or setting is unsupported.
pub fn d2_sched_affinity_pid_self(get: Sys, set: Sys) -> (r: TestResult)
    ensures
        r == guard(ok(get, "get"), guard(that(set is Ok || is_soft(set->Err_0), "set"), passed())),
{
    check_ok(get, "get")?;
    check(match set { Ok(_) => true, Err(e) => soft(e) }, "set")?;
    Ok(())
}

/// `F_SEAL_SHRINK | F_SEAL_GROW` added together both show in
/// `F_GET_SEALS`, or sealing is unsupported.
pub fn d2_memfd_seal_combo_shrink_grow(
    create: Sys,
    truncate: Sys,
    add: Sys,
    get: SysVal,
    close: Sys,
) -> (r: TestResult)
    ensures
        r == guard(ok(create, "m"), guard(ok(truncate, "t"),
            guard(that(add is Ok || is_soft(add->Err_0), "seals"),
            guard(only_if(add is Ok, ok(get, "g")),
            guard(only_if(add is Ok, that((get->Ok_0) & F_SEAL_SHRINK != 0, "shrink")),
            guard(only_if(add is Ok, that((get->Ok_0) & F_SEAL_GROW != 0, "grow")),
            guard(ok(close, "c"), passed()))))))),
{
    check_ok(create, "m")?;
    check_ok(truncate, "t")?;
    check(match add { Ok(_) => true, Err(e) => soft(e) }, "seals")?;
    if add.is_ok() {
        let s = check_ok(get, "g")?;
        check(s & F_SEAL_SHRINK != 0, "shrink")?;
        check(s & F_SEAL_GROW != 0, "grow")?;
    }
    check_ok(close, "c")?;
    Ok(())
}

/// Verdict shared by the `d2_memfd_seal_*` tests: an added seal shows in
/// `F_GET_SEALS`, or sealing is unsupported.
pub fn memfd_seal(
    seal: i64,
    create: Sys,
    truncate: Sys,
    add: Sys,
    get: SysVal,
    close: Sys,
) -> (r: TestResult)
    ensures
        r == guard(ok(create, "m"), guard(ok(truncate, "trunc"),
            guard(that(add is Ok || is_soft(add->Err_0), "add seal"),
            guard(only_if(add is Ok, ok(get, "get")),
            guard(only_if(add is Ok, that((get->Ok_0) & seal != 0, "sealed")),
            guard(ok(close, "c"), passed())))))),
{
    check_ok(create, "m")?;
    check_ok(truncate, "trunc")?;
    check(match add { Ok(_) => true, Err(e) => soft(e) }, "add seal")?;
    if add.is_ok() {
        let s = check_ok(get, "get")?;
        check(s & seal != 0, "sealed")?;
    }
    check_ok(close, "c")?;
    Ok(())
}

/// After `F_SEAL_WRITE`, a write fails with `EPERM` or `EACCES` (or is
/// tolerated); sealing may be unsupported.
pub fn d2_memfd_seal_write_blocks_write(
    create: Sys,
    write: Sys,
    add: Sys,
    write_after: Sys,
    close: Sys,
) -> (r: TestResult)
    ensures
        r == guard(ok(create, "m"), guard(ok(write, "w"),
            guard(that(add is Ok || is_soft(add->Err_0), "seal"),
            guard(only_if(add is Ok, that(write_after is Ok || fails_with(write_after, seq![EPERM, EACCES]) || is_soft(write_after->Err_0), "write after seal")),
            guard(ok(close, "c"), passed()))))),
{
    check_ok(create, "m")?;
    check_ok(write, "w")?;
    check(match add { Ok(_) => true, Err(e) => soft(e) }, "seal")?;
    if add.is_ok() {
        check(match write_after { Ok(_) => true, Err(e) => e.0 == EPERM || e.0 == EACCES || soft(e) }, "write after seal")?;
    }
    check_ok(close, "c")?;
    Ok(())
}

/// The calls `d2_memfd_seal_write_blocks_write` makes besides its checks:
/// when adding the seal, or the write after it, fails in a way the test
/// does not accept, it closes the memfd before the test fails.
pub fn seal_write_cleanup(fd: i64, add: Sys, write_after: Sys) -> (acts: Vec<Act>)
    ensures
        acts@ == (if (add is Err && !is_soft(add->Err_0)) || (add is Ok && write_after is Err && !(write_after->Err_0.0 == EPERM || write_after->Err_0.0 == EACCES || is_soft(write_after->Err_0))) { seq![Act::Close(fd)] } else { Seq::<Act>::empty() }),
{
    if match add { Err(e) => !soft(e), Ok(_) => match write_after { Err(e) => !(e.0 == EPERM || e.0 == EACCES || soft(e)), Ok(_) => false } } {
        vec![Act::Close(fd)]
    } else {
        vec![]
    }
}

/// Verdict shared by the `d2_tfd_abs_*` tests: a timerfd armed at an
/// absolute deadline (`set`: `timerfd_settime(TFD_TIMER_ABSTIME)` with
/// `abs_timer_setting`) and read back.
pub fn timerfd_abs(create: Sys, now: Sys, set: Sys, get: Sys, close: Sys) -> (r: TestResult)
    ensures
        r == guard(ok(create, "t"), guard(ok(now, "now"), guard(ok(set, "set"),
            guard(ok(get, "get"), guard(ok(close, "c"), passed()))))),
{
    check_ok(create, "t")?;
    check_ok(now, "now")?;
    check_ok(set, "set")?;
    check_ok(get, "get")?;
    check_ok(close, "c")?;
    Ok(())
}

/// A timerfd armed 5 ms ahead (`set`: `timerfd_settime(TFD_TIMER_ABSTIME)`
/// with `abs_timer_setting(now, 5_000_000)`) and read after 30 ms counts at
/// least one expiry when the read returns eight bytes.
pub fn d2_tfd_abs_expire_read(
    create: Sys,
    now: Sys,
    set: Sys,
    read: SysVal,
    value: [u8; 8],
    close: Sys,
) -> (r: TestResult)
    ensures
        r == guard(ok(create, "t"), guard(ok(now, "now"), guard(ok(set, "set"),
            guard(only_if(read == Ok::<i64, Errno>(8), that(le_u64(value@) >= 1, "exp")),
            guard(ok(close, "c"), passed()))))),
{
    check_ok(create, "t")?;
    check_ok(now, "now")?;
    check_ok(set, "set")?;
    if matches!(read, Ok(8)) {
        check(u64_from_ne_bytes(value) >= 1, "exp")?;
    }
    check_ok(close, "c")?;
    Ok(())
}

/// Verdict shared by the `d2_in_mask_*` tests: a watch with some event mask
/// is added (with a non-negative descriptor) and removed.
pub fn inotify_mask_add(tmp: Sys, init: Sys, add: SysVal, rm: Sys, close: Sys) -> (r: TestResult)
    ensures
        r == guard(ok(tmp, "t"), guard(ok(init, "init"), guard(ok(add, "add"),
            guard(that((add->Ok_0) >= 0, "wd"), guard(ok(rm, "rm"),
            guard(ok(close, "c"), passed())))))),
{
    check_ok(tmp, "t")?;
    check_ok(init, "init")?;
    let wd = check_ok(add, "add")?;
    check(wd >= 0, "wd")?;
    check_ok(rm, "rm")?;
    check_ok(close, "c")?;
    Ok(())
}

/// `chmod` of a watched file queues an `IN_ATTRIB` event.
pub fn d2_inotify_attrib_on_chmod(
    tmp: Sys,
    setup: TestResult,
    write: TestResult,
    init: Sys,
    add: Sys,
    chmod: Sys,
    read: SysVal,
    rm: Sys,
    close: Sys,
) -> (r: TestResult)
    ensures
        r == guard(ok(tmp, "t"), guard(nested(setup), guard(nested(write), guard(ok(init, "init"),
            guard(ok(add, "add"), guard(ok(chmod, "chmod"), guard(ok(read, "r"),
            guard(that((read->Ok_0) >= 16, "ev"), guard(ok(rm, "rm"),
            guard(ok(close, "c"), passed())))))))))),
{
    check_ok(tmp, "t")?;
    setup?;
    write?;
    check_ok(init, "init")?;
    check_ok(add, "add")?;
    check_ok(chmod, "chmod")?;
    let n = check_ok(read, "r")?;
    check(n >= 16, "ev")?;
    check_ok(rm, "rm")?;
    check_ok(close, "c")?;
    Ok(())
}

/// Opening a watched file queues an `IN_OPEN` event.
pub fn d2_inotify_open_event(
    tmp: Sys,
    setup: TestResult,
    write: TestResult,
    init: Sys,
    add: Sys,
    open: Sys,
    close_file: Sys,
    read: SysVal,
    rm: Sys,
    close: Sys,
) -> (r: TestResult)
    ensures
        r == guard(ok(tmp, "t"), guard(nested(setup), guard(nested(write), guard(ok(init, "init"),
            guard(ok(add, "add"), guard(ok(open, "open"), guard(ok(close_file, "cof"),
            guard(ok(read, "r"), guard(that((read->Ok_0) >= 16, "ev"), guard(ok(rm, "rm"),
            guard(ok(close, "c"), passed()))))))))))),
{
    check_ok(tmp, "t")?;
    setup?;
    write?;
    check_ok(init, "init")?;
    check_ok(add, "add")?;
    check_ok(open, "open")?;
    check_ok(close_file, "cof")?;
    let n = check_ok(read, "r")?;
    check(n >= 16, "ev")?;
    check_ok(rm, "rm")?;
    check_ok(close, "c")?;
    Ok(())
}

/// A rename inside a watched directory queues move events.
pub fn d2_inotify_move_rename(
    tmp: Sys,
    setup_src: TestResult,
    write: TestResult,
    setup_dst: TestResult,
    init: Sys,
    add: Sys,
    rename: Sys,
    read: SysVal,
    rm: Sys,
    close: Sys,
) -> (r: TestResult)
    ensures
        r == guard(ok(tmp, "t"), guard(nested(setup_src), guard(nested(write),
            guard(nested(setup_dst), guard(ok(init, "init"), guard(ok(add, "add"),
            guard(ok(rename, "ren"), guard(ok(read, "r"), guard(that((read->Ok_0) >= 16, "ev"),
            guard(ok(rm, "rm"), guard(ok(close, "c"), passed()))))))))))),
{
    check_ok(tmp, "t")?;
    setup_src?;
    write?;
    setup_dst?;
    check_ok(init, "init")?;
    check_ok(add, "add")?;
    check_ok(rename, "ren")?;
    let n = check_ok(read, "r")?;
    check(n >= 16, "ev")?;
    check_ok(rm, "rm")?;
    check_ok(close, "c")?;
    Ok(())
}

/// Verdict shared by the `d2_pidfd_open_*` tests: a pidfd of the own
/// process opens and closes, or is unsupported.
pub fn pidfd_open_flags(open: Sys, close: Sys) -> (r: TestResult)
    ensures
        r == guard(that(open is Ok || is_soft(open->Err_0), "pidfd_open"),
            guard(only_if(open is Ok, ok(close, "c")), passed())),
{
    check(match open { Ok(_) => true, Err(e) => soft(e) }, "pidfd_open")?;
    if open.is_ok() {
        check_ok(close, "c")?;
    }
    Ok(())
}

/// Signal 0 through a pidfd of the own process.
pub fn d2_pidfd_send_zero_to_self(open: Sys, probe: Sys, close: Sys) -> (r: TestResult)
    ensures
        r == guard(ok(open, "open"), guard(ok(probe, "probe"), guard(ok(close, "c"), passed()))),
{
    check_ok(open, "open")?;
    check_ok(probe, "probe")?;
    check_ok(close, "c")?;
    Ok(())
}

/// `SIGTERM` sent through a child's pidfd kills it.
pub fn d2_pidfd_kill_child_term(
    fork: Sys,
    open: Sys,
    signal: Sys,
    wait: Sys,
    status: i32,
    close: Sys,
) -> (r: TestResult)
    ensures
        r == guard(ok(fork, "fork"), guard(ok(open, "open"), guard(ok(signal, "sig"),
            guard(ok(wait, "wait"),
            guard(that(spec_term_sig(status) != 0 && spec_term_sig(status) != 0x7f, "signaled"),
            guard(ok(close, "c"), passed())))))),
{
    check_ok(fork, "fork")?;
    check_ok(open, "open")?;
    check_ok(signal, "sig")?;
    check_ok(wait, "wait")?;
    check(wifsignaled(status), "signaled")?;
    check_ok(close, "c")?;
    Ok(())
}

/// `pidfd_getfd` on a child is attempted (any answer is accepted) and the
/// pidfd closes.
pub fn d2_pidfd_getfd_soft(fork: Sys, open: Sys, close: Sys) -> (r: TestResult)
    ensures
        r == guard(ok(fork, "fork"), guard(ok(open, "open"), guard(ok(close, "c"), passed()))),
{
    check_ok(fork, "fork")?;
    check_ok(open, "open")?;
    check_ok(close, "c")?;
    Ok(())
}

/// The calls `d2_pidfd_getfd_soft` makes between its `pidfd_open` and its
/// checked close of the pidfd, whatever `pidfd_getfd` gave: a descriptor it
/// got is closed, then the sleeping child `pid` is killed and reaped.
pub fn d2_getfd_cleanup(pid: i64, getfd: SysVal) -> (acts: Vec<Act>)
    ensures
        acts@ == (match getfd {
            Ok(fd) => seq![Act::Close(fd), Act::KillReap(pid)],
            Err(_) => seq![Act::KillReap(pid)],
        }),
{
    match getfd {
        Ok(fd) => vec![Act::Close(fd), Act::KillReap(pid)],
        Err(_) => vec![Act::KillReap(pid)],
    }
}

/// After binding to loopback, `getsockname` reports at least eight bytes of
/// address; an unsupported bind passes.
pub fn d2_inet_bind_getsockname(
    socket: Sys,
    bind: Sys,
    name: Sys,
    len: u32,
    close: Sys,
) -> (r: TestResult)
    ensures
        r == guard(ok(socket, "sock"), guard(that(bind is Ok || is_soft(bind->Err_0), "bind"),
            guard(only_if(bind is Ok, ok(name, "name")),
            guard(only_if(bind is Ok, that(len >= 8, "len")), guard(ok(close, "c"), passed()))))),
{
    check_ok(socket, "sock")?;
    check(match bind { Ok(_) => true, Err(e) => soft(e) }, "bind")?;
    if bind.is_ok() {
        check_ok(name, "name")?;
        check(len >= 8, "len")?;
    }
    check_ok(close, "c")?;
    Ok(())
}

/// Restricting the own affinity to the first allowed CPU (the mask that
/// `first_cpu_only` builds) leaves a non-empty mask; an unsupported
/// `sched_setaffinity` passes.
pub fn d2_sched_affinity_single_cpu_soft(
    get: Sys,
    set: Sys,
    get2: Sys,
    got: &[u8],
) -> (r: TestResult)
    ensures
        r == guard(ok(get, "get"), guard(that(set is Ok || is_soft(set->Err_0), "set one"),
            guard(only_if(set is Ok, ok(get2, "get2")),
            guard(only_if(set is Ok, that(exists|i: int| 0 <= i < got@.len() && got@[i] != 0, "still")), passed())))),
{
    check_ok(get, "get")?;
    check(match set { Ok(_) => true, Err(e) => soft(e) }, "set one")?;
    if set.is_ok() {
        check_ok(get2, "get2")?;
        check(any_nonzero(got), "still")?;
    }
    Ok(())
}

/// The call `d2_sched_affinity_single_cpu_soft` makes besides its checks:
/// once the single-CPU mask was set and the mask read back names some CPU
/// (`got`), it sets the mask read at the start back, whatever that gives.
pub fn affinity_restore(set: Sys, get2: Sys, got: &[u8]) -> (acts: Vec<Act>)
    ensures
        acts@ == (if set is Ok && get2 is Ok && exists|i: int| 0 <= i < got@.len() && got@[i] != 0 {
            seq![Act::RestoreAffinity]
        } else {
            Seq::<Act>::empty()
        }),
{
    if set.is_ok() && get2.is_ok() && any_nonzero(got) {
        vec![Act::RestoreAffinity]
    } else {
        vec![]
    }
}

} // verus!
