//! Verdict logic of a Linux syscall conformance suite for container
//! runtimes: what each test checks of the kernel's answers, and the byte
//! encodings the tests build and read.

pub mod errno;
pub mod harness;
pub mod plan;
pub mod bytes;
pub mod abi;
pub mod ltp_edges;
pub mod wait_status;
pub mod ltp_edges_depth2;
pub mod sigset;
pub mod ltp_edges_depth3;
pub mod ltp_edges_depth4;
pub mod pipe_inherit;
pub mod spawn_ipc;
pub mod pty;
pub mod scm_rights;
pub mod posix_timers;
pub mod mqueue;
pub mod sched;
pub mod time;
pub mod process_vm;
pub mod sigaltstack_test;
pub mod memfd;
pub mod memory;
pub mod misc;
pub mod net;
pub mod signal;
pub mod sigmask;
pub mod sync_ops;
pub mod sysinfo_rusage;
pub mod process;
pub mod process_ids;
pub mod timerfd;
pub mod sockopt;
pub mod openat2_test;
pub mod pidfd;
pub mod ppoll_test;
pub mod prctl_name;
pub mod pselect_test;
pub mod statx_test;
pub mod signalfd;
pub mod sysv_msg;
pub mod sysv_sem;
pub mod vmsplice_test;
pub mod waitid_test;
pub mod unshare_test;
pub mod userfaultfd_test;
pub mod udp;
pub mod tcp;
pub mod sendfile_io;
pub mod mremap_msync;
pub mod sysv_shm;
pub mod memory_depth;
pub mod process_depth;
pub mod net_depth;
pub mod misc_depth;
pub mod time_depth;
pub mod signal_depth;
