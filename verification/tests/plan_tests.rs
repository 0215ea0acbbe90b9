use lctp::abi::Timespec;
use lctp::errno::{Errno, EACCES, EAGAIN, EBADF, EEXIST, EINVAL, ENOMEM, ENOSYS, ENOTTY, EPERM, EXDEV};
use lctp::harness::{fail, AssertFail, ChildWait};
use lctp::ltp_edges::{edge_close_range_cleanup, wnohang_reap};
use lctp::ltp_edges_depth2::{abs_timer_setting, affinity_restore, d2_getfd_cleanup, seal_write_cleanup};
use lctp::ltp_edges_depth3::{pidfd_open_cleanup, ppoll_cleanup, tcp_dontwait_cleanup};
use lctp::ltp_edges_depth4::{
    close_range_cleanup, d4_pidfd_open_cleanup, ioctl_cleanup, mremap_maymove_unmap, msync_cleanup,
    pselect_cleanup,
};
use lctp::memory_depth::mmap_fixed_cleanup;
use lctp::misc_depth::{misc_close_range_cleanup, tiocgwinsz_cleanup};
use lctp::mqueue::{create_unlink_cleanup, missing_name_cleanup};
use lctp::mremap_msync::grow_read_at;
use lctp::net_depth::{net_tcp_large_payload_4k, run_transfer};
use lctp::openat2_test::beneath_escape_cleanup;
use lctp::pidfd::getfd_cleanup;
use lctp::pipe_inherit::{parent_after_wait, parent_before_wait, shell_parent_closes, true_binary};
use lctp::plan::Act;
use lctp::posix_timers::{rearm_cleanup, roundtrip_cleanup};
use lctp::pty::{pty_child_setup, pty_final_wait, pty_ls_another_round, pty_ls_final_wait, TtySetup};
use lctp::spawn_ipc::{
    plugin_host_closes, plugin_host_dups, plugin_host_exec, worker_ready_step, worker_tick_wait, Ready,
};

fn err(e: i32) -> Errno {
    Errno(e)
}

#[test]
fn pipe_parent_holds_the_writer_until_the_wait() {
    assert_eq!(parent_before_wait(3, 4, true), vec![Act::Close(3)]);
    assert_eq!(parent_before_wait(3, 4, false), vec![Act::Close(3), Act::Close(4)]);
    assert_eq!(parent_after_wait(4, true, &Ok(0)), vec![Act::Close(4)]);
    assert_eq!(parent_after_wait(4, true, &Err(fail("child hung (pipe/wait deadlock?)"))), vec![]);
    assert_eq!(parent_after_wait(4, false, &Ok(0)), vec![]);
    assert_eq!(shell_parent_closes(5, 6, false), vec![Act::Close(6)]);
    assert_eq!(shell_parent_closes(5, 6, true), vec![Act::Close(5)]);
    assert_eq!(true_binary(Ok(()), Ok(())), Some("/bin/true"));
    assert_eq!(true_binary(Err(err(libc_enoent())), Ok(())), Some("/usr/bin/true"));
    assert_eq!(true_binary(Err(err(libc_enoent())), Err(err(libc_enoent()))), None);
}

fn libc_enoent() -> i32 {
    lctp::errno::ENOENT
}

#[test]
fn timers_queues_and_children_are_released_on_soft_paths() {
    assert_eq!(roundtrip_cleanup(Ok(()), Err(err(ENOSYS)), Ok(Timespec { tv_sec: 1, tv_nsec: 0 })), vec![Act::TimerDelete]);
    assert_eq!(roundtrip_cleanup(Ok(()), Ok(()), Err(err(EBADF))), vec![Act::TimerDelete]);
    assert_eq!(roundtrip_cleanup(Ok(()), Ok(()), Ok(Timespec { tv_sec: 1, tv_nsec: 0 })), vec![]);
    assert_eq!(roundtrip_cleanup(Err(err(ENOSYS)), Err(err(ENOSYS)), Err(err(ENOSYS))), vec![]);
    assert_eq!(rearm_cleanup(Ok(()), Err(err(EINVAL))), vec![Act::TimerDelete]);
    assert_eq!(rearm_cleanup(Ok(()), Ok(())), vec![]);
    assert_eq!(create_unlink_cleanup(Err(err(EEXIST))), vec![Act::MqUnlink]);
    assert_eq!(create_unlink_cleanup(Ok(3)), vec![]);
    assert_eq!(missing_name_cleanup(Ok(7)), vec![Act::Close(7)]);
    assert_eq!(pidfd_open_cleanup(40, Err(err(ENOSYS))), vec![Act::KillReap(40)]);
    assert_eq!(pidfd_open_cleanup(40, Err(err(EBADF))), vec![]);
    assert_eq!(d4_pidfd_open_cleanup(40, Err(err(ENOSYS))), vec![Act::Kill(40)]);
    assert_eq!(d4_pidfd_open_cleanup(40, Err(err(EBADF))), vec![Act::KillReap(40)]);
    assert_eq!(getfd_cleanup(40, 5, 6, Err(err(EAGAIN))), vec![Act::Close(5), Act::Close(6), Act::KillReap(40)]);
    assert_eq!(getfd_cleanup(40, 5, 6, Err(err(EPERM))), vec![]);
    assert_eq!(d2_getfd_cleanup(40, Ok(9)), vec![Act::Close(9), Act::KillReap(40)]);
    assert_eq!(d2_getfd_cleanup(40, Err(err(EBADF))), vec![Act::KillReap(40)]);
    assert_eq!(wnohang_reap(40), Act::Reap(40));
}

#[test]
fn descriptors_and_mappings_are_released_before_failing() {
    assert_eq!(ppoll_cleanup(3, 4, Err(err(EBADF))), vec![Act::Close(3), Act::Close(4)]);
    assert_eq!(ppoll_cleanup(3, 4, Err(err(ENOSYS))), vec![]);
    assert_eq!(pselect_cleanup(3, 4, Ok(1)), vec![Act::Close(3), Act::Close(4)]);
    assert_eq!(pselect_cleanup(3, 4, Ok(0)), vec![]);
    assert_eq!(ioctl_cleanup(5, Err(err(EBADF))), vec![Act::Close(5)]);
    assert_eq!(ioctl_cleanup(5, Err(err(ENOTTY))), vec![]);
    assert_eq!(tiocgwinsz_cleanup(5, Err(err(EBADF))), vec![Act::Close(5)]);
    assert_eq!(tiocgwinsz_cleanup(5, Ok(())), vec![]);
    assert_eq!(tcp_dontwait_cleanup(1, 2, 3, Ok(4)), vec![Act::Close(1), Act::Close(2), Act::Close(3)]);
    assert_eq!(tcp_dontwait_cleanup(1, 2, 3, Err(err(EAGAIN))), vec![]);
    assert_eq!(seal_write_cleanup(8, Ok(()), Err(err(EBADF))), vec![Act::Close(8)]);
    assert_eq!(seal_write_cleanup(8, Ok(()), Err(err(EACCES))), vec![]);
    assert_eq!(close_range_cleanup(50, 3, Err(err(EBADF))), vec![Act::Close(50), Act::Close(3)]);
    assert_eq!(close_range_cleanup(50, 3, Ok(())), vec![Act::Close(50)]);
    assert_eq!(edge_close_range_cleanup(120, 3, Err(err(EBADF))), vec![Act::Close(120), Act::Close(3)]);
    assert_eq!(misc_close_range_cleanup(90, 3, Err(err(ENOSYS))), vec![]);
    assert_eq!(msync_cleanup(0x1000, Err(err(EBADF))), vec![Act::Munmap(0x1000, 4096)]);
    assert_eq!(mmap_fixed_cleanup(0x2000, Err(err(EBADF))), vec![Act::Munmap(0x2000, 8192)]);
    assert_eq!(mmap_fixed_cleanup(0x2000, Err(err(ENOMEM))), vec![]);
    assert_eq!(beneath_escape_cleanup(Ok(11)), vec![Act::Close(11)]);
    assert_eq!(beneath_escape_cleanup(Err(err(EXDEV))), vec![]);
    assert_eq!(mremap_maymove_unmap(0x1000, Ok(0x9000)), Act::Munmap(0x9000, 8192));
    assert_eq!(mremap_maymove_unmap(0x1000, Err(err(ENOMEM))), Act::Munmap(0x1000, 4096));
    assert_eq!(grow_read_at(Ok(0x9000)), Some(0x9000));
    assert_eq!(affinity_restore(Ok(()), Ok(()), &[0, 1]), vec![Act::RestoreAffinity]);
    assert_eq!(affinity_restore(Ok(()), Ok(()), &[0, 0]), vec![]);
}

#[test]
fn bounded_waits_end_by_killing_the_child() {
    assert!(matches!(pty_final_wait(7, 0, Ok(7)), ChildWait::Done(Ok(()))));
    assert!(matches!(pty_final_wait(7, 0, Ok(0)), ChildWait::SleepThenPoll));
    assert!(matches!(pty_final_wait(7, 39, Ok(0)), ChildWait::SleepThenKill(Err(f)) if f == fail("pty child hung")));
    assert!(matches!(pty_ls_final_wait(7, 39, Ok(0)), ChildWait::SleepThenPoll));
    assert!(matches!(pty_ls_final_wait(7, 40, Ok(0)), ChildWait::KillNow(Ok(()))));
    assert!(pty_ls_another_round(58));
    assert!(!pty_ls_another_round(59));
    assert!(matches!(worker_ready_step(0, Ok(1)), Ready::Seen));
    assert!(matches!(worker_ready_step(0, Err(err(EAGAIN))), Ready::Spin));
    assert!(matches!(worker_ready_step(9999, Err(err(EAGAIN))), Ready::GiveUp));
    assert!(matches!(worker_ready_step(9999, Ok(0)), Ready::GiveUp));
    assert!(worker_tick_wait(0, 0, 0));
    assert!(!worker_tick_wait(0, 1, 0));
    assert!(!worker_tick_wait(400, 0, 0));
}

#[test]
fn child_setups_and_commands() {
    assert_eq!(
        pty_child_setup(5, 6),
        vec![
            TtySetup::Close(5),
            TtySetup::Setsid,
            TtySetup::ControllingTty(6),
            TtySetup::Dup(6, 0),
            TtySetup::Dup(6, 1),
            TtySetup::Dup(6, 2),
            TtySetup::Close(6)
        ]
    );
    assert_eq!(pty_child_setup(5, 1).len(), 6);
    assert_eq!(plugin_host_dups(7, 8, 9, 20, 21), vec![(7, 0), (8, 1), (9, 2), (20, 3), (21, 4)]);
    assert_eq!(plugin_host_closes(7, 8, 9, 10, 20, 21, 5, 4), vec![7, 8, 9, 10, 20, 21, 5]);
    assert_eq!(plugin_host_closes(0, 1, 2, 3, 3, 4, 4, 11), vec![11]);
    let (path, argv, envp) = plugin_host_exec();
    assert_eq!(path, "/bin/sh");
    assert_eq!(argv, vec!["sh", "-c", "read line <&3"]);
    assert_eq!(envp, vec!["NODE_CHANNEL_FD=3"]);
}

#[test]
fn transfer_loops_and_timer_settings() {
    assert_eq!(run_transfer(10, &[Ok(4), Ok(6), Ok(3)], "send", Some("progress")), Ok(10));
    assert_eq!(run_transfer(10, &[Ok(4), Ok(0)], "send", Some("progress")), Err(fail("progress")));
    assert_eq!(
        run_transfer(10, &[Ok(4), Err(err(EAGAIN))], "send", Some("progress")),
        Err(AssertFail { msg: "send", errno: Some(err(EAGAIN)) })
    );
    assert_eq!(net_tcp_large_payload_4k(Ok(()), &[Ok(4000), Ok(96)], &[Ok(4096)], Ok(()), Ok(()), Ok(())), Ok(()));
    assert_eq!(
        net_tcp_large_payload_4k(Ok(()), &[Ok(4000), Ok(0)], &[Ok(4096)], Ok(()), Ok(()), Ok(())),
        Err(fail("progress"))
    );
    assert_eq!(
        net_tcp_large_payload_4k(Ok(()), &[Ok(4096)], &[Ok(10), Ok(0)], Ok(()), Ok(()), Ok(())),
        Err(fail("r"))
    );
    let its = abs_timer_setting(Timespec { tv_sec: 10, tv_nsec: 999_000_000 }, 5_000_000);
    assert_eq!(its.interval, Timespec { tv_sec: 0, tv_nsec: 0 });
    assert_eq!(its.value, Timespec { tv_sec: 11, tv_nsec: 4_000_000 });
}
