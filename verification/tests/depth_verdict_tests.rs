use lctp::abi::Timespec;
use lctp::errno::{Errno, EAGAIN, EBADF, ECHILD, EINVAL, ENOSYS, ENOTTY, EPERM, ESRCH, EWOULDBLOCK};
use lctp::harness::{fail, AssertFail};
use lctp::misc_depth::{
    misc_close_range_close_soft, misc_dup3_cloexec, misc_getpriority, misc_getrandom_nonblock_soft,
    misc_ioctl_tiocgwinsz_enotty, misc_kcmp_same, misc_process_vm_readv_self,
    misc_sched_setaffinity_roundtrip_soft, misc_sched_yield_many, misc_uname_stable,
    misc_uname_sysname, misc_flock_conflict_nb,
};
use lctp::net_depth::multi_round;
use lctp::signal_depth::{
    sig_kill_bad_pid_zero, sig_pending_after_blocked_raise, sig_pending_clear_after_ign,
    sig_sigchld_ign_still_wait, sig_signalfd_read_usr1, sig_wait_after_sigchld_default,
};
use lctp::time_depth::{
    clock_get, clock_res, posix_timer_disarm, posix_timer_interval,
    realtime_matches_gettimeofday_rough, timerfd_absolute_past_fires_soft,
};
use lctp::timerfd::Itimerspec;

fn err(e: i32) -> Errno {
    Errno(e)
}

#[test]
fn uname_sysname_must_start_with_linux() {
    assert_eq!(misc_uname_sysname(Ok(()), b"Linux\0\0\0\0"), Ok(()));
    assert_eq!(misc_uname_sysname(Ok(()), b"Linuxish\0"), Ok(()));
    assert_eq!(misc_uname_sysname(Ok(()), b"Lin\0ux\0"), Err(fail("sys")));
    assert_eq!(
        misc_uname_sysname(Err(err(EPERM)), b"Linux\0"),
        Err(AssertFail { msg: "uname", errno: Some(err(EPERM)) })
    );
}

#[test]
fn uname_stable_compares_c_strings() {
    assert_eq!(misc_uname_stable(Ok(()), Ok(()), b"Linux\0a", b"Linux\0b", b"6.1\0", b"6.1\0zz"), Ok(()));
    assert_eq!(misc_uname_stable(Ok(()), Ok(()), b"Linux\0", b"Linux\0", b"6.1\0", b"6.2\0"), Err(fail("rel")));
}

#[test]
fn getrandom_nonblock_soft_errors() {
    assert_eq!(misc_getrandom_nonblock_soft(Ok(8)), Ok(()));
    assert_eq!(misc_getrandom_nonblock_soft(Ok(0)), Err(fail("n")));
    assert_eq!(misc_getrandom_nonblock_soft(Err(err(EAGAIN))), Ok(()));
    assert_eq!(misc_getrandom_nonblock_soft(Err(err(ENOSYS))), Ok(()));
    assert_eq!(misc_getrandom_nonblock_soft(Err(err(EBADF))), Err(fail("grnd nonblock")));
}

#[test]
fn ioctl_on_a_file_is_refused_softly() {
    assert_eq!(misc_ioctl_tiocgwinsz_enotty(Ok(()), Ok(()), Err(err(ENOTTY)), Ok(())), Ok(()));
    assert_eq!(misc_ioctl_tiocgwinsz_enotty(Ok(()), Ok(()), Ok(()), Ok(())), Ok(()));
    assert_eq!(
        misc_ioctl_tiocgwinsz_enotty(Ok(()), Ok(()), Err(err(EBADF)), Ok(())),
        Err(fail("tiocgwinsz"))
    );
}

#[test]
fn dup3_needs_close_on_exec() {
    assert_eq!(misc_dup3_cloexec(Ok(()), Ok(()), Ok(()), Ok(1), Ok(()), Ok(())), Ok(()));
    assert_eq!(misc_dup3_cloexec(Ok(()), Ok(()), Ok(()), Ok(0), Ok(()), Ok(())), Err(fail("cloexec")));
}

#[test]
fn close_range_close_branches() {
    // Closed: closing again must fail with EBADF, the copy is not closed again.
    assert_eq!(misc_close_range_close_soft(Ok(()), Ok(()), Ok(()), Ok(()), Err(err(EBADF)), Ok(())), Ok(()));
    assert_eq!(
        misc_close_range_close_soft(Ok(()), Ok(()), Ok(()), Ok(()), Ok(()), Ok(())),
        Err(AssertFail { msg: "closed", errno: None })
    );
    // Unsupported: the copy is closed by hand.
    assert_eq!(misc_close_range_close_soft(Ok(()), Ok(()), Ok(()), Err(err(ENOSYS)), Ok(()), Ok(())), Ok(()));
    assert_eq!(
        misc_close_range_close_soft(Ok(()), Ok(()), Ok(()), Err(err(EBADF)), Ok(()), Ok(())),
        Err(fail("cr close"))
    );
}

#[test]
fn kcmp_same_file() {
    assert_eq!(misc_kcmp_same(Ok(()), Ok(()), Ok(()), Ok(0), Ok(())), Ok(()));
    assert_eq!(misc_kcmp_same(Ok(()), Ok(()), Ok(()), Ok(1), Ok(())), Err(fail("kcmp ne")));
    assert_eq!(misc_kcmp_same(Ok(()), Ok(()), Ok(()), Err(err(EPERM)), Ok(())), Ok(()));
    assert_eq!(misc_kcmp_same(Ok(()), Ok(()), Ok(()), Err(err(EBADF)), Ok(())), Err(fail("kcmp")));
    assert_eq!(misc_kcmp_same(Ok(()), Err(fail("create")), Ok(()), Ok(0), Ok(())), Err(fail("create")));
}

#[test]
fn process_vm_readv_copies_the_bytes() {
    assert_eq!(misc_process_vm_readv_self(Ok(4), &[1, 2, 3, 4]), Ok(()));
    assert_eq!(misc_process_vm_readv_self(Ok(3), &[1, 2, 3, 4]), Err(fail("n")));
    assert_eq!(misc_process_vm_readv_self(Ok(4), &[1, 2, 3, 5]), Err(fail("d")));
    assert_eq!(misc_process_vm_readv_self(Err(err(EPERM)), &[0; 4]), Ok(()));
    assert_eq!(misc_process_vm_readv_self(Err(err(EBADF)), &[0; 4]), Err(fail("vm_readv")));
}

#[test]
fn yields_and_affinity() {
    assert_eq!(misc_sched_yield_many(&[Ok(()); 8]), Ok(()));
    assert_eq!(
        misc_sched_yield_many(&[Ok(()), Err(err(EINVAL))]),
        Err(AssertFail { msg: "yield", errno: Some(err(EINVAL)) })
    );
    assert_eq!(misc_sched_setaffinity_roundtrip_soft(Err(err(EBADF)), Err(err(EBADF))), Ok(()));
    assert_eq!(misc_sched_setaffinity_roundtrip_soft(Ok(()), Err(err(EPERM))), Ok(()));
    assert_eq!(misc_sched_setaffinity_roundtrip_soft(Ok(()), Err(err(EBADF))), Err(fail("setaff")));
}

#[test]
fn priority_range_and_flock_conflict() {
    assert_eq!(misc_getpriority(Ok(-20)), Ok(()));
    assert_eq!(misc_getpriority(Ok(19)), Ok(()));
    assert_eq!(misc_getpriority(Ok(20)), Err(fail("range")));
    let ok = Ok(());
    assert_eq!(misc_flock_conflict_nb(ok, Ok(()), ok, ok, ok, Err(err(EWOULDBLOCK)), ok, ok, ok), Ok(()));
    assert_eq!(
        misc_flock_conflict_nb(ok, Ok(()), ok, ok, ok, Ok(()), ok, ok, ok),
        Err(AssertFail { msg: "busy", errno: None })
    );
}

#[test]
fn clock_verdicts() {
    let t = Timespec { tv_sec: 5, tv_nsec: 10 };
    assert_eq!(clock_get(Ok(t)), Ok(()));
    assert_eq!(clock_get(Ok(Timespec { tv_sec: -1, tv_nsec: 0 })), Err(fail("sec")));
    assert_eq!(clock_get(Ok(Timespec { tv_sec: 1, tv_nsec: 1_000_000_000 })), Err(fail("nsec")));
    assert_eq!(clock_get(Err(err(EINVAL))), Ok(()));
    assert_eq!(clock_get(Err(err(EBADF))), Err(fail("clock_gettime")));
    assert_eq!(clock_res(Ok(Timespec { tv_sec: 0, tv_nsec: 1 })), Ok(()));
    assert_eq!(clock_res(Ok(Timespec { tv_sec: 0, tv_nsec: 0 })), Err(fail("nonzero res")));
}

#[test]
fn posix_timer_disarm_passes_when_unsupported() {
    assert_eq!(posix_timer_disarm(Err(err(ENOSYS)), Err(err(EBADF)), Err(err(EBADF)), Err(err(EBADF))), Ok(()));
    assert_eq!(posix_timer_disarm(Err(err(EBADF)), Ok(()), Ok(()), Ok(())), Err(fail("create")));
    assert_eq!(
        posix_timer_disarm(Ok(()), Ok(()), Err(err(EINVAL)), Ok(())),
        Err(AssertFail { msg: "disarm", errno: Some(err(EINVAL)) })
    );
    assert_eq!(posix_timer_disarm(Ok(()), Ok(()), Ok(()), Ok(())), Ok(()));
}

#[test]
fn timer_interval_and_skew() {
    let zero = Timespec { tv_sec: 0, tv_nsec: 0 };
    let one = Timespec { tv_sec: 1, tv_nsec: 0 };
    assert_eq!(posix_timer_interval(Ok(()), Ok(()), Ok(Itimerspec { interval: one, value: one }), Ok(())), Ok(()));
    assert_eq!(
        posix_timer_interval(Ok(()), Ok(()), Ok(Itimerspec { interval: zero, value: one }), Ok(())),
        Err(fail("interval"))
    );
    let ts = Timespec { tv_sec: 1_700_000_002, tv_nsec: 0 };
    assert_eq!(realtime_matches_gettimeofday_rough(Ok(ts), Ok((1_700_000_000, 5))), Ok(()));
    assert_eq!(realtime_matches_gettimeofday_rough(Ok(ts), Ok((1_700_000_004, 5))), Ok(()));
    assert_eq!(realtime_matches_gettimeofday_rough(Ok(ts), Ok((1_699_999_999, 5))), Err(fail("skew")));
    assert_eq!(timerfd_absolute_past_fires_soft(Ok(()), Ok(()), Err(err(EAGAIN)), Ok(())), Ok(()));
    assert_eq!(timerfd_absolute_past_fires_soft(Ok(()), Ok(()), Ok(3), Ok(())), Ok(()));
    assert_eq!(
        timerfd_absolute_past_fires_soft(Ok(()), Ok(()), Err(err(EBADF)), Ok(())),
        Err(fail("read tfd"))
    );
}

#[test]
fn signal_verdicts() {
    assert_eq!(sig_kill_bad_pid_zero(Err(err(ESRCH))), Ok(()));
    assert_eq!(sig_kill_bad_pid_zero(Err(err(EPERM))), Err(fail("kill bad")));
    let ok = Ok(());
    assert_eq!(sig_pending_after_blocked_raise(ok, ok, ok, 1 << 9, ok, ok, ok), Ok(()));
    assert_eq!(sig_pending_after_blocked_raise(ok, ok, ok, 1 << 10, ok, ok, ok), Err(fail("usr1 pending")));
    assert_eq!(sig_pending_clear_after_ign(ok, ok, ok, ok, ok, 1 << 10, ok, ok), Ok(()));
    assert_eq!(sig_pending_clear_after_ign(ok, ok, ok, ok, ok, 1 << 9, ok, ok), Err(fail("cleared")));
    assert_eq!(sig_signalfd_read_usr1(ok, ok, ok, Ok(128), 10, ok, ok), Ok(()));
    assert_eq!(sig_signalfd_read_usr1(ok, ok, ok, Ok(128), 12, ok, ok), Err(fail("signo")));
    assert_eq!(sig_signalfd_read_usr1(ok, ok, ok, Ok(3), 10, ok, ok), Err(fail("len")));
}

#[test]
fn ignored_sigchld_children() {
    let ok = Ok(());
    assert_eq!(sig_sigchld_ign_still_wait(ok, ok, Ok(()), 7 << 8, ok), Ok(()));
    assert_eq!(sig_sigchld_ign_still_wait(ok, ok, Ok(()), 8 << 8, ok), Err(fail("st")));
    assert_eq!(sig_sigchld_ign_still_wait(ok, ok, Err(err(ECHILD)), 0, ok), Ok(()));
    assert_eq!(sig_sigchld_ign_still_wait(ok, ok, Err(err(EINVAL)), 0, ok), Err(fail("wait")));
    assert_eq!(sig_wait_after_sigchld_default(Ok(300), Ok(300), 42 << 8), Ok(()));
    assert_eq!(sig_wait_after_sigchld_default(Ok(300), Ok(301), 42 << 8), Err(fail("pid")));
}

#[test]
fn one_round_of_the_multi_send() {
    assert_eq!(multi_round(b"bb", Ok(()), Ok(2), b"bbxx"), Ok(()));
    assert_eq!(multi_round(b"bb", Ok(()), Ok(1), b"bbxx"), Err(fail("d")));
    assert_eq!(multi_round(b"ccc", Ok(()), Ok(3), b"cca"), Err(fail("d")));
}
