use lctp::abi::Timespec;
use lctp::errno::{Errno, EAGAIN, EBADF, ECHILD, EINVAL, ELOOP, ENOSYS, ENOTTY, EPERM, ESRCH};
use lctp::harness::{fail, AssertFail, ChildWait};
use lctp::ltp_edges::{abstime_future_setting, disarmed_setting};
use lctp::ltp_edges_depth4::{
    d4_futex_wake_zero, d4_ioctl_enotty, d4_mincore_page, d4_openat2_no_symlinks, d4_pselect_zero,
    d4_statx_basic, STATX_SIZE, STATX_TYPE,
};
use lctp::mqueue::mq_name;
use lctp::mremap_msync::{is_byte_ramp, mremap_grow_preserves_data};
use lctp::net_depth::net_msg_dontwait_eagain;
use lctp::pipe_inherit::{ls_after_read, ls_after_wait, wait_exit_status, wait_exit_step, LsNext, LS_ROUNDS, WAIT_POLLS};
use lctp::process_depth::waitpid_wnohang_echild_soft;
use lctp::pty::{format_pts_path, pty_drain_another_round, PTY_DRAIN_ROUNDS};
use lctp::time_depth::clock_getres_invalid_soft;
use lctp::timerfd::Itimerspec;

fn err(e: i32) -> Errno {
    Errno(e)
}

#[test]
fn mincore_needs_the_touched_page_resident() {
    assert_eq!(d4_mincore_page(Ok(()), Ok(()), 1, Ok(())), Ok(()));
    assert_eq!(d4_mincore_page(Ok(()), Ok(()), 0, Ok(())), Err(fail("resident")));
    assert_eq!(d4_mincore_page(Ok(()), Err(err(ENOSYS)), 0, Ok(())), Ok(()));
    assert_eq!(d4_mincore_page(Ok(()), Err(err(EBADF)), 1, Ok(())), Err(fail("mincore")));
}

#[test]
fn futex_wake_of_no_waiters_wakes_none() {
    assert_eq!(d4_futex_wake_zero(Ok(0)), Ok(()));
    assert_eq!(d4_futex_wake_zero(Ok(1)), Err(fail("futex")));
    assert_eq!(d4_futex_wake_zero(Err(err(ENOSYS))), Ok(()));
    assert_eq!(d4_futex_wake_zero(Err(err(EBADF))), Err(fail("futex")));
}

#[test]
fn pselect_on_an_idle_pipe_returns_zero() {
    assert_eq!(d4_pselect_zero(Ok(()), Ok(0), Ok(()), Ok(())), Ok(()));
    assert_eq!(d4_pselect_zero(Ok(()), Ok(1), Ok(()), Ok(())), Err(fail("pselect")));
    assert_eq!(d4_pselect_zero(Ok(()), Err(err(ENOSYS)), Ok(()), Ok(())), Ok(()));
}

#[test]
fn tcgets_on_a_file_fails_with_enotty_or_einval() {
    assert_eq!(d4_ioctl_enotty(Ok(()), Ok(()), Err(err(ENOTTY)), Ok(())), Ok(()));
    assert_eq!(d4_ioctl_enotty(Ok(()), Ok(()), Err(err(EINVAL)), Ok(())), Ok(()));
    assert_eq!(d4_ioctl_enotty(Ok(()), Ok(()), Ok(0), Ok(())), Err(fail("ioctl")));
    assert_eq!(d4_ioctl_enotty(Ok(()), Ok(()), Err(err(ENOSYS)), Ok(())), Err(fail("ioctl")));
}

#[test]
fn statx_fills_type_and_size() {
    let both = STATX_TYPE | STATX_SIZE;
    assert_eq!(d4_statx_basic(Ok(()), Ok(()), Ok(()), Ok(()), both, 2), Ok(()));
    assert_eq!(d4_statx_basic(Ok(()), Ok(()), Ok(()), Ok(()), STATX_SIZE, 2), Err(fail("mask")));
    assert_eq!(d4_statx_basic(Ok(()), Ok(()), Ok(()), Ok(()), both, 3), Err(fail("size")));
    assert_eq!(d4_statx_basic(Ok(()), Ok(()), Ok(()), Err(err(ENOSYS)), 0, 0), Ok(()));
}

#[test]
fn openat2_without_symlinks_opens_a_plain_file() {
    assert_eq!(d4_openat2_no_symlinks(Ok(()), Ok(()), Ok(()), Ok(()), Ok(()), Ok(())), Ok(()));
    assert_eq!(
        d4_openat2_no_symlinks(Ok(()), Ok(()), Ok(()), Ok(()), Ok(()), Err(err(EBADF))),
        Err(AssertFail { msg: "c", errno: Some(err(EBADF)) })
    );
    assert_eq!(d4_openat2_no_symlinks(Ok(()), Ok(()), Ok(()), Ok(()), Err(err(ENOSYS)), Ok(())), Ok(()));
    assert_eq!(
        d4_openat2_no_symlinks(Ok(()), Ok(()), Ok(()), Ok(()), Err(err(ELOOP)), Ok(())),
        Err(fail("openat2 nosym"))
    );
}

#[test]
fn udp_dontwait_probe() {
    assert_eq!(net_msg_dontwait_eagain(Ok(()), Ok(()), Err(err(EAGAIN)), Ok(())), Ok(()));
    assert_eq!(
        net_msg_dontwait_eagain(Ok(()), Ok(()), Ok(3), Ok(())),
        Err(AssertFail { msg: "eagain", errno: None })
    );
}

#[test]
fn names_leave_the_rest_of_the_buffer_alone() {
    let mut q = [0xeeu8; 32];
    let len = mq_name(1234, &mut q);
    assert_eq!(&q[..len], b"/lctp-mq-1234\0");
    assert!(q[len..].iter().all(|b| *b == 0xee));
    let mut out = [0x77u8; 64];
    assert_eq!(format_pts_path(3, &mut out), Ok(11));
    assert!(out[11..].iter().all(|b| *b == 0x77));
}

#[test]
fn bounded_wait_for_a_child() {
    assert_eq!(WAIT_POLLS, 200);
    assert!(matches!(wait_exit_step(9, 0, Ok(9), 3 << 8), ChildWait::Done(Ok(3))));
    assert!(matches!(wait_exit_step(9, 0, Ok(9), 9), ChildWait::Done(Err(f)) if f == fail("exited")));
    assert!(matches!(wait_exit_step(9, 5, Err(err(EPERM)), 0), ChildWait::Done(Err(f)) if f == fail("wait4")));
    assert!(matches!(wait_exit_step(9, 5, Ok(0), 0), ChildWait::SleepThenPoll));
    assert!(matches!(wait_exit_step(9, 5, Err(err(ECHILD)), 0), ChildWait::SleepThenPoll));
    assert!(matches!(
        wait_exit_step(9, 199, Ok(0), 0),
        ChildWait::SleepThenKill(Err(f)) if f == fail("child hung (pipe/wait deadlock?)")
    ));
    assert_eq!(wait_exit_status(9, &[(Ok(0), 0), (Ok(9), 0)]), Ok(0));
    assert_eq!(wait_exit_status(9, &[(Ok(0), 0)]), Err(fail("child hung (pipe/wait deadlock?)")));
}

#[test]
fn ls_read_loop_steps() {
    assert_eq!(LS_ROUNDS, 60);
    assert_eq!(ls_after_read(10, Ok(20)), Some(30));
    assert_eq!(ls_after_read(10, Ok(0)), None);
    assert_eq!(ls_after_read(10, Err(err(EINVAL))), None);
    assert!(matches!(ls_after_wait(5, 3, Ok(5)), LsNext::Reaped));
    assert!(matches!(ls_after_wait(5, 3, Ok(0)), LsNext::SleepThenRead));
    assert!(matches!(ls_after_wait(5, 59, Ok(0)), LsNext::Leave));
    assert_eq!(PTY_DRAIN_ROUNDS, 80);
    assert!(pty_drain_another_round(78));
    assert!(!pty_drain_another_round(79));
}

#[test]
fn remapped_page_keeps_the_written_ramp() {
    let page: Vec<u8> = (0..4096usize).map(|i| (i % 256) as u8).collect();
    assert!(is_byte_ramp(&page));
    assert_eq!(mremap_grow_preserves_data(Ok(()), Ok(()), &page, Ok(())), Ok(()));
    let mut bad = page.clone();
    bad[300] = 0;
    assert_eq!(mremap_grow_preserves_data(Ok(()), Ok(()), &bad, Ok(())), Err(fail("data preserved")));
    assert_eq!(mremap_grow_preserves_data(Ok(()), Ok(()), &page[..100], Ok(())), Err(fail("data preserved")));
}

#[test]
fn soft_probes_follow_their_descriptions() {
    assert_eq!(waitpid_wnohang_echild_soft(Ok(0)), Ok(()));
    assert_eq!(waitpid_wnohang_echild_soft(Err(err(ESRCH))), Ok(()));
    assert_eq!(waitpid_wnohang_echild_soft(Ok(1)), Err(fail("waitpid soft")));
    assert_eq!(clock_getres_invalid_soft(Err(err(EINVAL))), Ok(()));
    assert_eq!(clock_getres_invalid_soft(Err(err(EPERM))), Ok(()));
    assert_eq!(clock_getres_invalid_soft(Ok(Timespec { tv_sec: 0, tv_nsec: 1 })), Err(fail("bad clock")));
}

#[test]
fn timerfd_deadline_is_100_seconds_ahead() {
    let now = Timespec { tv_sec: 5000, tv_nsec: 123 };
    let zero = Timespec { tv_sec: 0, tv_nsec: 0 };
    assert_eq!(
        abstime_future_setting(&now),
        Itimerspec { interval: zero, value: Timespec { tv_sec: 5100, tv_nsec: 0 } }
    );
    assert_eq!(disarmed_setting(), Itimerspec { interval: zero, value: zero });
}
