//! Test verdicts: a test passes when every check it makes holds, and fails
//! with the message of the first check that does not.
//!
//! Each syscall test of the suite is a verdict function over what its
//! syscalls returned, in the order the test makes them. Its contract is a
//! chain of `guard` steps, one per check, ending in `passed()`.

use vstd::prelude::*;
use crate::errno::Errno;

verus! {

/// Why a test failed: the message of the failed check and, when the check
/// was on a syscall's success, the error that syscall returned.
#[derive(Clone, Copy, Debug, PartialEq, Eq)]
pub struct AssertFail {
    pub msg: &'static str,
    pub errno: Option<Errno>,
}

/// Outcome of a test.
pub type TestResult = Result<(), AssertFail>;

/// Outcome of a syscall whose result the test does not read.
pub type Sys = Result<(), Errno>;

/// Outcome of a syscall whose result the test reads (a count, an fd, a
/// flag word, an offset...).
pub type SysVal = Result<i64, Errno>;

/// One check of a test: whether it held, and the failure it reports when
/// it did not.
pub struct Step {
    pub held: bool,
    pub fail: AssertFail,
}

/// The check that a syscall succeeded.
pub open spec fn ok<T>(r: Result<T, Errno>, msg: &'static str) -> Step {
    match r {
        Ok(_) => Step { held: true, fail: AssertFail { msg, errno: None } },
        Err(e) => Step { held: false, fail: AssertFail { msg, errno: Some(e) } },
    }
}

/// The check that a condition holds.
pub open spec fn that(c: bool, msg: &'static str) -> Step {
    Step { held: c, fail: AssertFail { msg, errno: None } }
}

/// The check that a syscall failed with error `want`.
pub open spec fn errs<T>(r: Result<T, Errno>, want: i32, msg: &'static str) -> Step {
    match r {
        Ok(_) => Step { held: false, fail: AssertFail { msg, errno: None } },
        Err(e) => Step { held: e.0 == want, fail: AssertFail { msg, errno: Some(e) } },
    }
}

/// A check followed by the rest of the test: the rest runs only when the
/// check held.
pub open spec fn guard<T>(s: Step, rest: Result<T, AssertFail>) -> Result<T, AssertFail> {
    if s.held {
        rest
    } else {
        Err(s.fail)
    }
}

/// The end of a test whose checks all held.
pub open spec fn passed() -> TestResult {
    Ok(())
}

/// A failure with a message and no error number.
pub open spec fn failure(msg: &'static str) -> AssertFail {
    AssertFail { msg, errno: None }
}

/// A test that stops with a failure.
pub open spec fn failed(msg: &'static str) -> TestResult {
    Err(failure(msg))
}

/// The result of a syscall outcome once checked: its value, or the failure.
pub open spec fn checked<T>(r: Result<T, Errno>, msg: &'static str) -> Result<T, AssertFail> {
    match r {
        Ok(v) => Ok(v),
        Err(e) => Err(AssertFail { msg, errno: Some(e) }),
    }
}

/// A part of a test that reports its own failure: it holds when that part
/// passed.
pub open spec fn nested<T>(r: Result<T, AssertFail>) -> Step {
    match r {
        Ok(_) => Step { held: true, fail: AssertFail { msg: "", errno: None } },
        Err(f) => Step { held: false, fail: f },
    }
}

/// The check `s` when `c` holds; a check that holds otherwise.
pub open spec fn only_if(c: bool, s: Step) -> Step {
    Step { held: !c || s.held, fail: s.fail }
}

/// A syscall outcome that is an error whose number is one of `codes`.
pub open spec fn fails_with<T>(r: Result<T, Errno>, codes: Seq<i32>) -> bool {
    r is Err && codes.contains(r->Err_0.0)
}

/// Whether a syscall outcome is an error whose number is one of `codes`.
pub fn failed_with<T>(r: &Result<T, Errno>, codes: &[i32]) -> (b: bool)
    ensures
        b == fails_with(*r, codes@),
{
    match r {
        Ok(_) => false,
        Err(e) => {
            let code = e.0;
            let mut i: usize = 0;
            while i < codes.len()
                invariant
                    i <= codes.len(),
                    *r is Err,
                    r->Err_0.0 == code,
                    forall|j: int| 0 <= j < i ==> codes@[j] != code,
                decreases codes.len() - i,
            {
                if codes[i] == code {
                    assert(codes@[i as int] == code);
                    return true;
                }
                i = i + 1;
            }
            assert(!codes@.contains(code));
            false
        },
    }
}

/// A failure carrying `msg` and no error number.
pub fn fail(msg: &'static str) -> (f: AssertFail)
    ensures
        f == failure(msg),
{
    AssertFail { msg, errno: None }
}

/// Checks that a syscall succeeded and hands on its value.
pub fn check_ok<T>(r: Result<T, Errno>, msg: &'static str) -> (out: Result<T, AssertFail>)
    ensures
        out == checked(r, msg),
        out is Ok <==> ok(r, msg).held,
        out is Err ==> out->Err_0 == ok(r, msg).fail,
{
    match r {
        Ok(v) => Ok(v),
        Err(e) => Err(AssertFail { msg, errno: Some(e) }),
    }
}

/// Checks a condition.
pub fn check(c: bool, msg: &'static str) -> (out: TestResult)
    ensures
        out == guard(that(c, msg), passed()),
{
    if c {
        Ok(())
    } else {
        Err(AssertFail { msg, errno: None })
    }
}

/// Checks that a syscall failed with error `want`.
pub fn check_err<T>(r: Result<T, Errno>, want: i32, msg: &'static str) -> (out: TestResult)
    ensures
        out == guard(errs(r, want, msg), passed()),
{
    match r {
        Ok(_) => Err(AssertFail { msg, errno: None }),
        Err(e) => {
            if e.0 == want {
                Ok(())
            } else {
                Err(AssertFail { msg, errno: Some(e) })
            }
        },
    }
}

/// A test passes exactly when every check in its chain held.
pub proof fn lemma_guard_passes(s: Step, rest: TestResult)
    ensures
        guard(s, rest) is Ok <==> s.held && rest is Ok,
        !s.held ==> guard(s, rest) == Err::<(), AssertFail>(s.fail),
{
}

/// The outcome of parts of a test run one after another: the failure of the
/// first part that failed, or a pass.
pub open spec fn first_failure(rs: Seq<TestResult>) -> TestResult
    decreases rs.len(),
{
    if rs.len() == 0 {
        Ok(())
    } else {
        match rs[0] {
            Ok(_) => first_failure(rs.drop_first()),
            Err(f) => Err(f),
        }
    }
}

/// Parts run one after another pass exactly when every part passed.
pub proof fn lemma_first_failure_passes(rs: Seq<TestResult>)
    ensures
        first_failure(rs) is Ok <==> forall|i: int| 0 <= i < rs.len() ==> rs[i] is Ok,
    decreases rs.len(),
{
    if rs.len() > 0 {
        let t = rs.drop_first();
        lemma_first_failure_passes(t);
        if first_failure(rs) is Ok {
            assert forall|i: int| 0 <= i < rs.len() implies rs[i] is Ok by {
                if i > 0 {
                    assert(t[i - 1] == rs[i]);
                }
            }
        } else if rs[0] is Ok {
            let w = choose|i: int| 0 <= i < t.len() && !(t[i] is Ok);
            assert(t[w] == rs[w + 1]);
        }
    }
}

/// When a part failed and every part before it passed, parts run one after
/// another fail with that part's failure.
pub proof fn lemma_first_failure_is_first(rs: Seq<TestResult>, k: int)
    requires
        0 <= k < rs.len(),
        rs[k] is Err,
        forall|i: int| 0 <= i < k ==> rs[i] is Ok,
    ensures
        first_failure(rs) == rs[k],
    decreases k,
{
    if k > 0 {
        let t = rs.drop_first();
        assert(rs[0] is Ok);
        assert forall|i: int| 0 <= i < k - 1 implies t[i] is Ok by {
            assert(t[i] == rs[i + 1]);
        }
        assert(t[k - 1] == rs[k]);
        lemma_first_failure_is_first(t, k - 1);
    }
}

/// The outcome of parts of a test run one after another (see
/// `first_failure`).
pub fn all_passed(rs: &[TestResult]) -> (r: TestResult)
    ensures
        r == first_failure(rs@),
{
    let mut i: usize = 0;
    assert(rs@.skip(0) =~= rs@);
    while i < rs.len()
        invariant
            i <= rs.len(),
            first_failure(rs@) == first_failure(rs@.skip(i as int)),
        decreases rs.len() - i,
    {
        assert(rs@.skip(i as int)[0] == rs@[i as int]);
        assert(rs@.skip(i as int).drop_first() =~= rs@.skip(i + 1));
        match rs[i] {
            Ok(_) => {},
            Err(f) => return Err(f),
        }
        i = i + 1;
    }
    assert(rs@.skip(i as int) =~= Seq::<TestResult>::empty());
    Ok(())
}

/// What a loop does after one of its rounds.
pub enum Round<T> {
    /// Go on with the next round at once.
    Again,
    /// Sleep briefly, then go on with the next round.
    Sleep,
    /// Stop: the loop's result.
    Done(Result<T, AssertFail>),
}

/// What a bounded wait for a child does after one `wait4(pid, WNOHANG)`
/// poll.
pub enum ChildWait<T> {
    /// The wait is over, with this result.
    Done(Result<T, AssertFail>),
    /// Sleep 50 ms, then poll again.
    SleepThenPoll,
    /// Sleep 50 ms, kill the child with signal 9, reap it with a blocking
    /// `wait4(pid, 0)`, and end the wait with this result.
    SleepThenKill(Result<T, AssertFail>),
    /// Kill the child with signal 9 at once, reap it with a blocking
    /// `wait4(pid, 0)`, and end the wait with this result.
    KillNow(Result<T, AssertFail>),
}

/// The checks that each of a run of syscalls succeeded, in order: the
/// failure of the first that failed, named `msg`, or a pass.
pub open spec fn spec_all_ok(rs: Seq<Sys>, msg: &'static str) -> TestResult
    decreases rs.len(),
{
    if rs.len() == 0 {
        Ok(())
    } else {
        match rs[0] {
            Ok(_) => spec_all_ok(rs.drop_first(), msg),
            Err(e) => Err(AssertFail { msg, errno: Some(e) }),
        }
    }
}

/// A run of syscalls passes its checks exactly when every call succeeded;
/// when one failed, the failure is named `msg` and carries the error of the
/// first call that failed.
pub proof fn lemma_all_ok(rs: Seq<Sys>, msg: &'static str)
    ensures
        spec_all_ok(rs, msg) is Ok <==> forall|i: int| 0 <= i < rs.len() ==> rs[i] is Ok,
        forall|k: int|
            0 <= k < rs.len() && rs[k] is Err && (forall|i: int| 0 <= i < k ==> rs[i] is Ok)
                ==> spec_all_ok(rs, msg) == Err::<(), AssertFail>(
                AssertFail { msg, errno: Some(rs[k]->Err_0) },
            ),
    decreases rs.len(),
{
    if rs.len() > 0 {
        let t = rs.drop_first();
        lemma_all_ok(t, msg);
        if spec_all_ok(rs, msg) is Ok {
            assert forall|i: int| 0 <= i < rs.len() implies rs[i] is Ok by {
                if i > 0 {
                    assert(t[i - 1] == rs[i]);
                }
            }
        } else if rs[0] is Ok {
            let w = choose|i: int| 0 <= i < t.len() && !(t[i] is Ok);
            assert(t[w] == rs[w + 1]);
        }
        assert forall|k: int|
            0 <= k < rs.len() && rs[k] is Err && (forall|i: int| 0 <= i < k ==> rs[i] is Ok)
            implies spec_all_ok(rs, msg) == Err::<(), AssertFail>(
            AssertFail { msg, errno: Some(rs[k]->Err_0) },
        ) by {
            if k > 0 {
                assert(rs[0] is Ok);
                assert(t[k - 1] == rs[k]);
                assert forall|i: int| 0 <= i < k - 1 implies t[i] is Ok by {
                    assert(t[i] == rs[i + 1]);
                }
            }
        }
    }
}

/// Checks that each of a run of syscalls succeeded (see `spec_all_ok`).
pub fn all_ok(rs: &[Sys], msg: &'static str) -> (r: TestResult)
    ensures
        r == spec_all_ok(rs@, msg),
{
    let mut i: usize = 0;
    assert(rs@.skip(0) =~= rs@);
    while i < rs.len()
        invariant
            i <= rs.len(),
            spec_all_ok(rs@, msg) == spec_all_ok(rs@.skip(i as int), msg),
        decreases rs.len() - i,
    {
        assert(rs@.skip(i as int)[0] == rs@[i as int]);
        assert(rs@.skip(i as int).drop_first() =~= rs@.skip(i + 1));
        match rs[i] {
            Ok(_) => {},
            Err(e) => return Err(AssertFail { msg, errno: Some(e) }),
        }
        i = i + 1;
    }
    assert(rs@.skip(i as int) =~= Seq::<Sys>::empty());
    Ok(())
}

} // verus!
