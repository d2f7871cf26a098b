//! Numbers of the Linux kernel interface on x86-64: system call numbers and
//! the flag values that the sandbox hands to the kernel.

use vstd::prelude::*;

verus! {

/// The `read` system call.
pub const SYS_READ: i64 = 0;

/// The `write` system call.
pub const SYS_WRITE: i64 = 1;

/// The `close` system call.
pub const SYS_CLOSE: i64 = 3;

/// The `fstat` system call.
pub const SYS_FSTAT: i64 = 5;

/// The `lseek` system call.
pub const SYS_LSEEK: i64 = 8;

/// The `mmap` system call.
pub const SYS_MMAP: i64 = 9;

/// The `mprotect` system call.
pub const SYS_MPROTECT: i64 = 10;

/// The `munmap` system call.
pub const SYS_MUNMAP: i64 = 11;

/// The `brk` system call.
pub const SYS_BRK: i64 = 12;

/// The `rt_sigaction` system call.
pub const SYS_RT_SIGACTION: i64 = 13;

/// The `rt_sigprocmask` system call.
pub const SYS_RT_SIGPROCMASK: i64 = 14;

/// The `rt_sigreturn` system call.
pub const SYS_RT_SIGRETURN: i64 = 15;

/// The `ioctl` system call.
pub const SYS_IOCTL: i64 = 16;

/// The `pread64` system call.
pub const SYS_PREAD64: i64 = 17;

/// The `pwrite64` system call.
pub const SYS_PWRITE64: i64 = 18;

/// The `readv` system call.
pub const SYS_READV: i64 = 19;

/// The `writev` system call.
pub const SYS_WRITEV: i64 = 20;

/// The `sched_yield` system call.
pub const SYS_SCHED_YIELD: i64 = 24;

/// The `mremap` system call.
pub const SYS_MREMAP: i64 = 25;

/// The `madvise` system call.
pub const SYS_MADVISE: i64 = 28;

/// The `dup` system call.
pub const SYS_DUP: i64 = 32;

/// The `nanosleep` system call.
pub const SYS_NANOSLEEP: i64 = 35;

/// The `getpid` system call.
pub const SYS_GETPID: i64 = 39;

/// The `socket` system call.
pub const SYS_SOCKET: i64 = 41;

/// The `connect` system call.
pub const SYS_CONNECT: i64 = 42;

/// The `sendto` system call.
pub const SYS_SENDTO: i64 = 44;

/// The `recvfrom` system call.
pub const SYS_RECVFROM: i64 = 45;

/// The `sendmsg` system call.
pub const SYS_SENDMSG: i64 = 46;

/// The `recvmsg` system call.
pub const SYS_RECVMSG: i64 = 47;

/// The `shutdown` system call.
pub const SYS_SHUTDOWN: i64 = 48;

/// The `bind` system call.
pub const SYS_BIND: i64 = 49;

/// The `listen` system call.
pub const SYS_LISTEN: i64 = 50;

/// The `getsockname` system call.
pub const SYS_GETSOCKNAME: i64 = 51;

/// The `getpeername` system call.
pub const SYS_GETPEERNAME: i64 = 52;

/// The `setsockopt` system call.
pub const SYS_SETSOCKOPT: i64 = 54;

/// The `getsockopt` system call.
pub const SYS_GETSOCKOPT: i64 = 55;

/// The `clone` system call.
pub const SYS_CLONE: i64 = 56;

/// The `execve` system call.
pub const SYS_EXECVE: i64 = 59;

/// The `exit` system call.
pub const SYS_EXIT: i64 = 60;

/// The `wait4` system call.
pub const SYS_WAIT4: i64 = 61;

/// The `fcntl` system call.
pub const SYS_FCNTL: i64 = 72;

/// The `getcwd` system call.
pub const SYS_GETCWD: i64 = 79;

/// The `gettimeofday` system call.
pub const SYS_GETTIMEOFDAY: i64 = 96;

/// The `ptrace` system call.
pub const SYS_PTRACE: i64 = 101;

/// The `getuid` system call.
pub const SYS_GETUID: i64 = 102;

/// The `syslog` system call.
pub const SYS_SYSLOG: i64 = 103;

/// The `getgid` system call.
pub const SYS_GETGID: i64 = 104;

/// The `geteuid` system call.
pub const SYS_GETEUID: i64 = 107;

/// The `getegid` system call.
pub const SYS_GETEGID: i64 = 108;

/// The `getppid` system call.
pub const SYS_GETPPID: i64 = 110;

/// The `capset` system call.
pub const SYS_CAPSET: i64 = 126;

/// The `sigaltstack` system call.
pub const SYS_SIGALTSTACK: i64 = 131;

/// The `personality` system call.
pub const SYS_PERSONALITY: i64 = 135;

/// The `sysfs` system call.
pub const SYS_SYSFS: i64 = 139;

/// The `vhangup` system call.
pub const SYS_VHANGUP: i64 = 153;

/// The `modify_ldt` system call.
pub const SYS_MODIFY_LDT: i64 = 154;

/// The `pivot_root` system call.
pub const SYS_PIVOT_ROOT: i64 = 155;

/// The `prctl` system call.
pub const SYS_PRCTL: i64 = 157;

/// The `arch_prctl` system call.
pub const SYS_ARCH_PRCTL: i64 = 158;

/// The `adjtimex` system call.
pub const SYS_ADJTIMEX: i64 = 159;

/// The `chroot` system call.
pub const SYS_CHROOT: i64 = 161;

/// The `acct` system call.
pub const SYS_ACCT: i64 = 163;

/// The `settimeofday` system call.
pub const SYS_SETTIMEOFDAY: i64 = 164;

/// The `mount` system call.
pub const SYS_MOUNT: i64 = 165;

/// The `umount2` system call.
pub const SYS_UMOUNT2: i64 = 166;

/// The `swapon` system call.
pub const SYS_SWAPON: i64 = 167;

/// The `swapoff` system call.
pub const SYS_SWAPOFF: i64 = 168;

/// The `reboot` system call.
pub const SYS_REBOOT: i64 = 169;

/// The `sethostname` system call.
pub const SYS_SETHOSTNAME: i64 = 170;

/// The `setdomainname` system call.
pub const SYS_SETDOMAINNAME: i64 = 171;

/// The `iopl` system call.
pub const SYS_IOPL: i64 = 172;

/// The `ioperm` system call.
pub const SYS_IOPERM: i64 = 173;

/// The `init_module` system call.
pub const SYS_INIT_MODULE: i64 = 175;

/// The `delete_module` system call.
pub const SYS_DELETE_MODULE: i64 = 176;

/// The `quotactl` system call.
pub const SYS_QUOTACTL: i64 = 179;

/// The `gettid` system call.
pub const SYS_GETTID: i64 = 186;

/// The `futex` system call.
pub const SYS_FUTEX: i64 = 202;

/// The `sched_getaffinity` system call.
pub const SYS_SCHED_GETAFFINITY: i64 = 204;

/// The `getdents64` system call.
pub const SYS_GETDENTS64: i64 = 217;

/// The `set_tid_address` system call.
pub const SYS_SET_TID_ADDRESS: i64 = 218;

/// The `restart_syscall` system call.
pub const SYS_RESTART_SYSCALL: i64 = 219;

/// The `clock_settime` system call.
pub const SYS_CLOCK_SETTIME: i64 = 227;

/// The `clock_gettime` system call.
pub const SYS_CLOCK_GETTIME: i64 = 228;

/// The `clock_getres` system call.
pub const SYS_CLOCK_GETRES: i64 = 229;

/// The `clock_nanosleep` system call.
pub const SYS_CLOCK_NANOSLEEP: i64 = 230;

/// The `exit_group` system call.
pub const SYS_EXIT_GROUP: i64 = 231;

/// The `epoll_ctl` system call.
pub const SYS_EPOLL_CTL: i64 = 233;

/// The `mbind` system call.
pub const SYS_MBIND: i64 = 237;

/// The `set_mempolicy` system call.
pub const SYS_SET_MEMPOLICY: i64 = 238;

/// The `kexec_load` system call.
pub const SYS_KEXEC_LOAD: i64 = 246;

/// The `add_key` system call.
pub const SYS_ADD_KEY: i64 = 248;

/// The `request_key` system call.
pub const SYS_REQUEST_KEY: i64 = 249;

/// The `keyctl` system call.
pub const SYS_KEYCTL: i64 = 250;

/// The `ioprio_set` system call.
pub const SYS_IOPRIO_SET: i64 = 251;

/// The `migrate_pages` system call.
pub const SYS_MIGRATE_PAGES: i64 = 256;

/// The `openat` system call.
pub const SYS_OPENAT: i64 = 257;

/// The `newfstatat` system call.
pub const SYS_NEWFSTATAT: i64 = 262;

/// The `readlinkat` system call.
pub const SYS_READLINKAT: i64 = 267;

/// The `faccessat` system call.
pub const SYS_FACCESSAT: i64 = 269;

/// The `pselect6` system call.
pub const SYS_PSELECT6: i64 = 270;

/// The `ppoll` system call.
pub const SYS_PPOLL: i64 = 271;

/// The `unshare` system call.
pub const SYS_UNSHARE: i64 = 272;

/// The `set_robust_list` system call.
pub const SYS_SET_ROBUST_LIST: i64 = 273;

/// The `get_robust_list` system call.
pub const SYS_GET_ROBUST_LIST: i64 = 274;

/// The `vmsplice` system call.
pub const SYS_VMSPLICE: i64 = 278;

/// The `move_pages` system call.
pub const SYS_MOVE_PAGES: i64 = 279;

/// The `epoll_pwait` system call.
pub const SYS_EPOLL_PWAIT: i64 = 281;

/// The `accept4` system call.
pub const SYS_ACCEPT4: i64 = 288;

/// The `epoll_create1` system call.
pub const SYS_EPOLL_CREATE1: i64 = 291;

/// The `dup3` system call.
pub const SYS_DUP3: i64 = 292;

/// The `pipe2` system call.
pub const SYS_PIPE2: i64 = 293;

/// The `perf_event_open` system call.
pub const SYS_PERF_EVENT_OPEN: i64 = 298;

/// The `fanotify_init` system call.
pub const SYS_FANOTIFY_INIT: i64 = 300;

/// The `name_to_handle_at` system call.
pub const SYS_NAME_TO_HANDLE_AT: i64 = 303;

/// The `open_by_handle_at` system call.
pub const SYS_OPEN_BY_HANDLE_AT: i64 = 304;

/// The `clock_adjtime` system call.
pub const SYS_CLOCK_ADJTIME: i64 = 305;

/// The `setns` system call.
pub const SYS_SETNS: i64 = 308;

/// The `process_vm_readv` system call.
pub const SYS_PROCESS_VM_READV: i64 = 310;

/// The `process_vm_writev` system call.
pub const SYS_PROCESS_VM_WRITEV: i64 = 311;

/// The `kcmp` system call.
pub const SYS_KCMP: i64 = 312;

/// The `finit_module` system call.
pub const SYS_FINIT_MODULE: i64 = 313;

/// The `getrandom` system call.
pub const SYS_GETRANDOM: i64 = 318;

/// The `kexec_file_load` system call.
pub const SYS_KEXEC_FILE_LOAD: i64 = 320;

/// The `bpf` system call.
pub const SYS_BPF: i64 = 321;

/// The `userfaultfd` system call.
pub const SYS_USERFAULTFD: i64 = 323;

/// The `rseq` system call.
pub const SYS_RSEQ: i64 = 334;

/// The `io_uring_setup` system call.
pub const SYS_IO_URING_SETUP: i64 = 425;

/// The `io_uring_enter` system call.
pub const SYS_IO_URING_ENTER: i64 = 426;

/// The `io_uring_register` system call.
pub const SYS_IO_URING_REGISTER: i64 = 427;

/// The `open_tree` system call.
pub const SYS_OPEN_TREE: i64 = 428;

/// The `move_mount` system call.
pub const SYS_MOVE_MOUNT: i64 = 429;

/// The `fsopen` system call.
pub const SYS_FSOPEN: i64 = 430;

/// The `fsconfig` system call.
pub const SYS_FSCONFIG: i64 = 431;

/// The `fsmount` system call.
pub const SYS_FSMOUNT: i64 = 432;

/// The `fspick` system call.
pub const SYS_FSPICK: i64 = 433;

/// The `clone3` system call.
pub const SYS_CLONE3: i64 = 435;

/// The `pidfd_getfd` system call.
pub const SYS_PIDFD_GETFD: i64 = 438;

/// The `faccessat2` system call.
pub const SYS_FACCESSAT2: i64 = 439;

/// The `mount_setattr` system call.
pub const SYS_MOUNT_SETATTR: i64 = 442;

/// Start in a new mount namespace.
pub const CLONE_NEWNS: u64 = 0x0002_0000;

/// Start in a new user namespace.
pub const CLONE_NEWUSER: u64 = 0x1000_0000;

/// Start in a new network namespace.
pub const CLONE_NEWNET: u64 = 0x4000_0000;

/// Mount read-only.
pub const MS_RDONLY: u64 = 0x01;

/// Ignore set-user-id bits on the mount.
pub const MS_NOSUID: u64 = 0x02;

/// Refuse device nodes on the mount.
pub const MS_NODEV: u64 = 0x04;

/// Refuse to execute from the mount.
pub const MS_NOEXEC: u64 = 0x08;

/// Change the flags of an existing mount.
pub const MS_REMOUNT: u64 = 0x20;

/// Mount a directory at a second place.
pub const MS_BIND: u64 = 0x1000;

/// Apply to the whole subtree.
pub const MS_REC: u64 = 0x4000;

/// Make the mount private.
pub const MS_PRIVATE: u64 = 0x4_0000;

/// Make the mount a slave.
pub const MS_SLAVE: u64 = 0x8_0000;

/// Unmount lazily.
pub const MNT_DETACH: i32 = 2;

/// The `TIOCSTI` ioctl request.
pub const TIOCSTI: u64 = 0x5412;

/// The `TIOCLINUX` ioctl request.
pub const TIOCLINUX: u64 = 0x541C;

/// Set the signal sent when the parent dies.
pub const PR_SET_PDEATHSIG: i32 = 1;

/// Set the dumpable flag.
pub const PR_SET_DUMPABLE: i32 = 4;

/// Set the securebits.
pub const PR_SET_SECUREBITS: i32 = 28;

/// Rewrite memory-map descriptors.
pub const PR_SET_MM: u64 = 35;

/// Set `no_new_privs`.
pub const PR_SET_NO_NEW_PRIVS: i32 = 38;

/// The kill signal.
pub const SIGKILL: u64 = 9;

/// The IPv4 address family.
pub const AF_INET: i32 = 2;

/// The raw packet address family.
pub const AF_PACKET: u64 = 17;

/// A datagram socket.
pub const SOCK_DGRAM: i32 = 2;

/// The interface is administratively up.
pub const IFF_UP: i16 = 1;

/// Operation not permitted.
pub const EPERM: u32 = 1;

/// System call not implemented.
pub const ENOSYS: u32 = 38;

} // verus!
