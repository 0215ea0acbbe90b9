use lctp::abi::{Timespec, SIGUSR1, SIGUSR2};
use lctp::bytes::{any_nonzero, bytes_eq, i32_from_ne_bytes, make_alphabet_pattern, nul_position, u64_from_ne_bytes};
use lctp::errno::{decode_ret, encode_err, Errno, EAGAIN, EBADF, EINTR};
use lctp::harness::{all_ok, all_passed, check, check_err, check_ok, fail, failed_with, AssertFail, Sys, TestResult};
use lctp::misc::cstr_prefix;
use lctp::mqueue::mq_name;
use lctp::net_depth::{multi_payload, transfer_step};
use lctp::pty::{decimal_digits, format_pts_path, put_numbered_name};
use lctp::scm_rights::{put_scm_rights, take_scm_rights, CMSG_SPACE_FD};
use lctp::sendfile_io::{head_is, same_head};
use lctp::sigset::sigbit;
use lctp::spawn_ipc::{child_still_running, drain_zombies_again, elapsed_ms, prefix_eq, timespec_ms};
use lctp::udp::{is_mod251, make_mod251};
use lctp::wait_status::{wexitstatus, wifexited, wifsignaled, wtermsig};

#[test]
fn errno_encode_then_decode_gives_the_error_back() {
    for code in [1, EBADF, EAGAIN, EINTR, 4095] {
        let raw = encode_err(Errno(code));
        assert_eq!(raw, -(code as i64));
        assert_eq!(decode_ret(raw), Err(Errno(code)));
    }
}

#[test]
fn decode_keeps_results_outside_the_error_range() {
    assert_eq!(decode_ret(0), Ok(0));
    assert_eq!(decode_ret(42), Ok(42));
    assert_eq!(decode_ret(-4096), Ok(-4096));
    assert_eq!(decode_ret(-4095), Err(Errno(4095)));
    assert_eq!(decode_ret(i64::MIN), Ok(i64::MIN));
}

#[test]
fn exit_status_roundtrip() {
    for code in [0, 1, 7, 42, 255] {
        let st = code << 8;
        assert!(wifexited(st));
        assert!(!wifsignaled(st));
        assert_eq!(wexitstatus(st), code);
        assert_eq!(wtermsig(st), 0);
    }
}

#[test]
fn signal_status_roundtrip() {
    for sig in [1, 9, 15, 31] {
        assert!(!wifexited(sig));
        assert!(wifsignaled(sig));
        assert_eq!(wtermsig(sig), sig);
    }
    // Core-dump flag set: still the same signal.
    assert_eq!(wtermsig(0x80 | 11), 11);
}

#[test]
fn sigbits_are_single_and_disjoint() {
    assert_eq!(sigbit(1), 1);
    assert_eq!(sigbit(SIGUSR1), 1 << 9);
    assert_eq!(sigbit(SIGUSR2), 1 << 11);
    assert_eq!(sigbit(64), 1u64 << 63);
    assert_eq!(sigbit(SIGUSR1) & sigbit(SIGUSR2), 0);
}

#[test]
fn scm_rights_put_then_take_gives_the_fd_back() {
    for fd in [0, 3, 17, 1023, i32::MAX] {
        let mut cbuf = [0xaau8; 32];
        let n = put_scm_rights(&mut cbuf, fd);
        assert_eq!(n, CMSG_SPACE_FD);
        assert_eq!(&cbuf[0..8], &[20, 0, 0, 0, 0, 0, 0, 0]);
        assert_eq!(&cbuf[24..32], &[0xaa; 8]);
        assert_eq!(take_scm_rights(&cbuf, n), Some(fd));
    }
}

#[test]
fn take_scm_rights_refuses_short_or_foreign_control_data() {
    let mut cbuf = [0u8; 24];
    put_scm_rights(&mut cbuf, 5);
    assert_eq!(take_scm_rights(&cbuf, 15), None);
    assert_eq!(take_scm_rights(&cbuf, 19), None);
    assert_eq!(take_scm_rights(&cbuf, 20), Some(5));
    cbuf[12] = 2;
    assert_eq!(take_scm_rights(&cbuf, 24), None);
}

#[test]
fn decimal_digits_spell_the_number() {
    assert_eq!(decimal_digits(0), b"0".to_vec());
    assert_eq!(decimal_digits(7), b"7".to_vec());
    assert_eq!(decimal_digits(10), b"10".to_vec());
    assert_eq!(decimal_digits(1234), b"1234".to_vec());
    assert_eq!(decimal_digits(u32::MAX), b"4294967295".to_vec());
}

#[test]
fn pts_paths_are_formatted_with_nul() {
    let mut out = [0xffu8; 64];
    assert_eq!(format_pts_path(7, &mut out), Ok(11));
    assert_eq!(&out[..11], b"/dev/pts/7\0");
    let mut out2 = [0u8; 64];
    assert_eq!(format_pts_path(u32::MAX, &mut out2), Ok(20));
    assert_eq!(&out2[..20], b"/dev/pts/4294967295\0");
    assert_ne!(&out[..11], &out2[..11]);
}

#[test]
fn numbered_names_and_queue_names() {
    let mut out = [0u8; 20];
    let n = put_numbered_name(&mut out, b"/x-", 305);
    assert_eq!(n, 7);
    assert_eq!(&out[..7], b"/x-305\0");
    let mut q = [0u8; 32];
    let len = mq_name(4321, &mut q);
    assert_eq!(&q[..len], b"/lctp-mq-4321\0");
}

#[test]
fn cstr_prefix_stops_at_the_first_nul() {
    assert_eq!(cstr_prefix(b"Linux\0\0junk"), b"Linux");
    assert_eq!(cstr_prefix(b"\0abc"), b"");
    assert_eq!(cstr_prefix(b"nonul"), b"nonul");
    assert_eq!(cstr_prefix(b""), b"");
    assert_eq!(nul_position(b"ab\0c\0"), Some(2));
    assert_eq!(nul_position(b"abc"), None);
}

#[test]
fn mod251_pattern_is_what_its_check_accepts() {
    for n in [0usize, 1, 250, 251, 252, 8192] {
        let v = make_mod251(n);
        assert_eq!(v.len(), n);
        assert!(is_mod251(&v));
    }
    let mut v = make_mod251(600);
    assert_eq!(v[251], 0);
    assert_eq!(v[599], (599 % 251) as u8);
    v[300] ^= 1;
    assert!(!is_mod251(&v));
}

#[test]
fn alphabet_pattern_cycles_through_the_letters() {
    let v = make_alphabet_pattern(28);
    assert_eq!(&v[..], b"ABCDEFGHIJKLMNOPQRSTUVWXYZAB");
}

#[test]
fn byte_comparisons() {
    assert!(bytes_eq(b"abc", b"abc"));
    assert!(!bytes_eq(b"abc", b"abd"));
    assert!(!bytes_eq(b"abc", b"ab"));
    assert!(prefix_eq(b"Linux 6.1", b"Linux"));
    assert!(!prefix_eq(b"Lin", b"Linux"));
    assert!(head_is(b"hello world", 5, b"hello"));
    assert!(!head_is(b"hello world", 4, b"hello"));
    assert!(same_head(b"abcX", b"abcY", 3));
    assert!(!same_head(b"abcX", b"abcY", 4));
    assert!(any_nonzero(&[0, 0, 3]));
    assert!(!any_nonzero(&[0, 0, 0]));
    assert!(!any_nonzero(&[]));
}

#[test]
fn native_order_words() {
    assert_eq!(i32_from_ne_bytes([1, 0, 0, 0]), 1);
    assert_eq!(i32_from_ne_bytes([0xff, 0xff, 0xff, 0xff]), -1);
    assert_eq!(u64_from_ne_bytes([1, 2, 0, 0, 0, 0, 0, 0x80]), 0x8000_0000_0000_0201);
}

#[test]
fn milliseconds_of_times() {
    let t = Timespec { tv_sec: 2, tv_nsec: 345_999_999 };
    assert_eq!(timespec_ms(&t), 2345);
    let neg = Timespec { tv_sec: 0, tv_nsec: -1_500_000 };
    assert_eq!(timespec_ms(&neg), -1);
    let huge = Timespec { tv_sec: i64::MAX, tv_nsec: 999_999_999 };
    assert_eq!(timespec_ms(&huge), i64::MAX);
    let tiny = Timespec { tv_sec: i64::MIN, tv_nsec: 0 };
    assert_eq!(timespec_ms(&tiny), i64::MIN);
}

#[test]
fn elapsed_time_between_clock_readings() {
    let a = Timespec { tv_sec: 10, tv_nsec: 900_000_000 };
    let b = Timespec { tv_sec: 11, tv_nsec: 100_000_000 };
    assert_eq!(elapsed_ms(&a, &b), 200);
    assert_eq!(elapsed_ms(&b, &a), -200);
    assert_eq!(elapsed_ms(&a, &a), 0);
    let tiny = Timespec { tv_sec: i64::MIN, tv_nsec: 0 };
    let huge = Timespec { tv_sec: i64::MAX, tv_nsec: 0 };
    assert_eq!(elapsed_ms(&tiny, &huge), i64::MAX);
    assert_eq!(elapsed_ms(&huge, &tiny), i64::MIN);
}

#[test]
fn verdict_is_the_first_failed_check() {
    assert_eq!(check(true, "x"), Ok(()));
    assert_eq!(check(false, "x"), Err(fail("x")));
    assert_eq!(check_ok::<i64>(Ok(3), "c"), Ok(3));
    assert_eq!(check_err::<()>(Err(Errno(EBADF)), EBADF, "e"), Ok(()));
    assert_eq!(check_err::<()>(Ok(()), EBADF, "e"), Err(AssertFail { msg: "e", errno: None }));
    assert_eq!(
        check_err::<()>(Err(Errno(EAGAIN)), EBADF, "e"),
        Err(AssertFail { msg: "e", errno: Some(Errno(EAGAIN)) })
    );
    let rs: [TestResult; 4] = [Ok(()), Err(fail("second")), Err(fail("third")), Ok(())];
    assert_eq!(all_passed(&rs), Err(fail("second")));
    assert_eq!(all_passed(&[Ok(()), Ok(())]), Ok(()));
    assert_eq!(all_passed(&[]), Ok(()));
    let calls: [Sys; 3] = [Ok(()), Err(Errno(EINTR)), Err(Errno(EBADF))];
    assert_eq!(all_ok(&calls, "yield"), Err(AssertFail { msg: "yield", errno: Some(Errno(EINTR)) }));
    assert_eq!(all_ok(&[Ok(()); 8], "yield"), Ok(()));
    assert!(failed_with(&Err::<(), Errno>(Errno(EAGAIN)), &[EINTR, EAGAIN]));
    assert!(!failed_with(&Ok::<(), Errno>(()), &[EINTR, EAGAIN]));
    assert!(!failed_with(&Err::<(), Errno>(Errno(EBADF)), &[EINTR, EAGAIN]));
}

#[test]
fn transfer_progresses_until_done() {
    assert_eq!(transfer_step(0, 10, Ok(4), "send", None), Ok(4));
    assert_eq!(transfer_step(4, 10, Ok(6), "send", None), Ok(10));
    assert_eq!(transfer_step(4, 10, Ok(0), "recv", Some("eof")), Err(fail("eof")));
    assert_eq!(transfer_step(4, 10, Ok(0), "send", None), Ok(4));
    assert_eq!(
        transfer_step(4, 10, Err(Errno(EAGAIN)), "send", None),
        Err(AssertFail { msg: "send", errno: Some(Errno(EAGAIN)) })
    );
    assert_eq!(multi_payload(0), b"a");
    assert_eq!(multi_payload(1), b"bb");
    assert_eq!(multi_payload(2), b"ccc");
}

#[test]
fn child_reaping_decisions() {
    assert_eq!(child_still_running(77, Ok(0)), Ok(true));
    assert_eq!(child_still_running(77, Ok(77)), Ok(false));
    assert_eq!(child_still_running(77, Err(Errno(lctp::errno::ECHILD))), Ok(false));
    assert_eq!(child_still_running(77, Err(Errno(EINTR))), Err(fail("wait4")));
    assert!(drain_zombies_again(Ok(1234)));
    assert!(!drain_zombies_again(Ok(0)));
    assert!(!drain_zombies_again(Err(Errno(lctp::errno::ECHILD))));
    assert!(!drain_zombies_again(Err(Errno(EINTR))));
}
