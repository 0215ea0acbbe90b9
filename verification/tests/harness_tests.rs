use lctp::errno::{decode_ret, Errno, EBADF};
use lctp::harness::{check_ok, AssertFail};

#[test]
fn decode_negative_is_errno() {
    assert_eq!(decode_ret(-9), Err(Errno(EBADF)));
    assert_eq!(decode_ret(3), Ok(3));
}

#[test]
fn check_ok_reports_errno() {
    let r: Result<i64, Errno> = Err(Errno(EBADF));
    assert_eq!(check_ok(r, "c"), Err(AssertFail { msg: "c", errno: Some(Errno(EBADF)) }));
}
