# lctp

The verdict logic of a Linux syscall conformance suite, verified with Verus.

Each test of the suite makes a fixed series of syscalls and checks what the
kernel answers. In this crate a test is a function from those answers (a
`Result` per call, plus the values read back) to the test's outcome: a pass,
or the failure of the first check that did not hold. Its contract states
that outcome exactly, as a chain of `guard` steps that ends in `passed()`
(see `src/harness.rs`).

Where a test loops (polls, drains, waits for a child), the loop's decision
after each round is a function of its own, from the round's outcome to the
next action, and its contract says what that action is; a bounded wait
that runs out says so too (`ChildWait`: sleep, kill, reap).

What a test does besides checking is stated the same way: the calls it
makes to release what it holds on a failing or unsupported path (closes,
unmaps, kills and reaps, timer deletes), the order in which a parent
closes pipe ends around its wait, and the descriptor layout and command of
the children it forks, as functions that give those calls
(`src/plan.rs` and the `*_cleanup` functions beside the verdicts).

## Layout

- `src/harness.rs`: outcomes, checks, the `guard` chain and its laws.
- `src/plan.rs`: the release and restore calls (`Act`) that the cleanup
  functions give.
- `src/errno.rs`, `src/abi.rs`: error numbers and the ABI constants the
  checks compare against.
- `src/bytes.rs`, `src/wait_status.rs`, `src/sigset.rs`, `src/misc.rs`,
  `src/pty.rs`, `src/scm_rights.rs`, `src/udp.rs`: encodings the tests build
  and read (byte patterns, wait status words, signal masks, C strings,
  `/dev/pts` names, `SCM_RIGHTS` control messages), with their laws.
- The other modules of `src/`: one per group of tests, named after it.
- `tests/`: tests of the encodings, laws and verdicts on concrete values.
- `app/`: a runner that makes the calls of the miscellaneous, clock and
  signal depth tests through libc and prints each verdict.
