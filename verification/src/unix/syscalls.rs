//! The system calls that the filters speak of: the mandatory-deny list, the
//! survival set, and the names that a policy may use.

use crate::abi::SYS_ACCEPT4;
use crate::abi::SYS_ACCT;
use crate::abi::SYS_ADD_KEY;
use crate::abi::SYS_ADJTIMEX;
use crate::abi::SYS_ARCH_PRCTL;
use crate::abi::SYS_BIND;
use crate::abi::SYS_BPF;
use crate::abi::SYS_BRK;
use crate::abi::SYS_CAPSET;
use crate::abi::SYS_CHROOT;
use crate::abi::SYS_CLOCK_ADJTIME;
use crate::abi::SYS_CLOCK_GETRES;
use crate::abi::SYS_CLOCK_GETTIME;
use crate::abi::SYS_CLOCK_NANOSLEEP;
use crate::abi::SYS_CLOCK_SETTIME;
use crate::abi::SYS_CLONE;
use crate::abi::SYS_CLOSE;
use crate::abi::SYS_CONNECT;
use crate::abi::SYS_DELETE_MODULE;
use crate::abi::SYS_DUP3;
use crate::abi::SYS_DUP;
use crate::abi::SYS_EPOLL_CREATE1;
use crate::abi::SYS_EPOLL_CTL;
use crate::abi::SYS_EPOLL_PWAIT;
use crate::abi::SYS_EXECVE;
use crate::abi::SYS_EXIT;
use crate::abi::SYS_EXIT_GROUP;
use crate::abi::SYS_FACCESSAT2;
use crate::abi::SYS_FACCESSAT;
use crate::abi::SYS_FANOTIFY_INIT;
use crate::abi::SYS_FCNTL;
use crate::abi::SYS_FINIT_MODULE;
use crate::abi::SYS_FSCONFIG;
use crate::abi::SYS_FSMOUNT;
use crate::abi::SYS_FSOPEN;
use crate::abi::SYS_FSPICK;
use crate::abi::SYS_FSTAT;
use crate::abi::SYS_FUTEX;
use crate::abi::SYS_GET_ROBUST_LIST;
use crate::abi::SYS_GETCWD;
use crate::abi::SYS_GETDENTS64;
use crate::abi::SYS_GETEGID;
use crate::abi::SYS_GETEUID;
use crate::abi::SYS_GETGID;
use crate::abi::SYS_GETPEERNAME;
use crate::abi::SYS_GETPID;
use crate::abi::SYS_GETPPID;
use crate::abi::SYS_GETRANDOM;
use crate::abi::SYS_GETSOCKNAME;
use crate::abi::SYS_GETSOCKOPT;
use crate::abi::SYS_GETTID;
use crate::abi::SYS_GETTIMEOFDAY;
use crate::abi::SYS_GETUID;
use crate::abi::SYS_INIT_MODULE;
use crate::abi::SYS_IO_URING_ENTER;
use crate::abi::SYS_IO_URING_REGISTER;
use crate::abi::SYS_IO_URING_SETUP;
use crate::abi::SYS_IOCTL;
use crate::abi::SYS_IOPERM;
use crate::abi::SYS_IOPL;
use crate::abi::SYS_IOPRIO_SET;
use crate::abi::SYS_KCMP;
use crate::abi::SYS_KEXEC_FILE_LOAD;
use crate::abi::SYS_KEXEC_LOAD;
use crate::abi::SYS_KEYCTL;
use crate::abi::SYS_LISTEN;
use crate::abi::SYS_LSEEK;
use crate::abi::SYS_MADVISE;
use crate::abi::SYS_MBIND;
use crate::abi::SYS_MIGRATE_PAGES;
use crate::abi::SYS_MMAP;
use crate::abi::SYS_MODIFY_LDT;
use crate::abi::SYS_MOUNT;
use crate::abi::SYS_MOUNT_SETATTR;
use crate::abi::SYS_MOVE_MOUNT;
use crate::abi::SYS_MOVE_PAGES;
use crate::abi::SYS_MPROTECT;
use crate::abi::SYS_MREMAP;
use crate::abi::SYS_MUNMAP;
use crate::abi::SYS_NAME_TO_HANDLE_AT;
use crate::abi::SYS_NANOSLEEP;
use crate::abi::SYS_NEWFSTATAT;
use crate::abi::SYS_OPEN_BY_HANDLE_AT;
use crate::abi::SYS_OPEN_TREE;
use crate::abi::SYS_OPENAT;
use crate::abi::SYS_PERF_EVENT_OPEN;
use crate::abi::SYS_PERSONALITY;
use crate::abi::SYS_PIDFD_GETFD;
use crate::abi::SYS_PIPE2;
use crate::abi::SYS_PIVOT_ROOT;
use crate::abi::SYS_PPOLL;
use crate::abi::SYS_PRCTL;
use crate::abi::SYS_PREAD64;
use crate::abi::SYS_PROCESS_VM_READV;
use crate::abi::SYS_PROCESS_VM_WRITEV;
use crate::abi::SYS_PSELECT6;
use crate::abi::SYS_PTRACE;
use crate::abi::SYS_PWRITE64;
use crate::abi::SYS_QUOTACTL;
use crate::abi::SYS_READ;
use crate::abi::SYS_READLINKAT;
use crate::abi::SYS_READV;
use crate::abi::SYS_REBOOT;
use crate::abi::SYS_RECVFROM;
use crate::abi::SYS_RECVMSG;
use crate::abi::SYS_REQUEST_KEY;
use crate::abi::SYS_RESTART_SYSCALL;
use crate::abi::SYS_RSEQ;
use crate::abi::SYS_RT_SIGACTION;
use crate::abi::SYS_RT_SIGPROCMASK;
use crate::abi::SYS_RT_SIGRETURN;
use crate::abi::SYS_SCHED_GETAFFINITY;
use crate::abi::SYS_SCHED_YIELD;
use crate::abi::SYS_SENDMSG;
use crate::abi::SYS_SENDTO;
use crate::abi::SYS_SET_MEMPOLICY;
use crate::abi::SYS_SET_ROBUST_LIST;
use crate::abi::SYS_SET_TID_ADDRESS;
use crate::abi::SYS_SETDOMAINNAME;
use crate::abi::SYS_SETHOSTNAME;
use crate::abi::SYS_SETNS;
use crate::abi::SYS_SETSOCKOPT;
use crate::abi::SYS_SETTIMEOFDAY;
use crate::abi::SYS_SHUTDOWN;
use crate::abi::SYS_SIGALTSTACK;
use crate::abi::SYS_SOCKET;
use crate::abi::SYS_SWAPOFF;
use crate::abi::SYS_SWAPON;
use crate::abi::SYS_SYSFS;
use crate::abi::SYS_SYSLOG;
use crate::abi::SYS_UMOUNT2;
use crate::abi::SYS_UNSHARE;
use crate::abi::SYS_USERFAULTFD;
use crate::abi::SYS_VHANGUP;
use crate::abi::SYS_VMSPLICE;
use crate::abi::SYS_WAIT4;
use crate::abi::SYS_WRITE;
use crate::abi::SYS_WRITEV;
use crate::text::str_equal;
use vstd::prelude::*;


verus! {

/// The mandatory-deny list: system calls that a sandboxed worker never needs,
/// because they lead out of its namespaces or have a history of kernel
/// vulnerabilities.
pub open spec fn mandatory_deny_list() -> Seq<i64> {
    seq![
        // Namespace nesting
        SYS_UNSHARE,
        SYS_SETNS,
        // Mount manipulation
        SYS_MOUNT,
        SYS_UMOUNT2,
        SYS_PIVOT_ROOT,
        SYS_CHROOT,
        SYS_MOVE_MOUNT,
        SYS_FSOPEN,
        SYS_FSCONFIG,
        SYS_FSMOUNT,
        SYS_FSPICK,
        SYS_OPEN_TREE,
        SYS_MOUNT_SETATTR,
        // Kernel-bug surface
        SYS_BPF,
        SYS_KEYCTL,
        SYS_ADD_KEY,
        SYS_REQUEST_KEY,
        SYS_PERF_EVENT_OPEN,
        SYS_USERFAULTFD,
        SYS_IO_URING_SETUP,
        SYS_IO_URING_ENTER,
        SYS_IO_URING_REGISTER,
        // Module loading
        SYS_INIT_MODULE,
        SYS_FINIT_MODULE,
        SYS_DELETE_MODULE,
        // System control
        SYS_REBOOT,
        SYS_KEXEC_LOAD,
        SYS_KEXEC_FILE_LOAD,
        SYS_SWAPON,
        SYS_SWAPOFF,
        SYS_SYSFS,
        SYS_SYSLOG,
        SYS_IOPL,
        SYS_IOPERM,
        SYS_VHANGUP,
        SYS_PERSONALITY,
        SYS_ACCT,
        // UTS / hostname
        SYS_SETHOSTNAME,
        SYS_SETDOMAINNAME,
        // Filesystem monitoring / privileged fs control
        SYS_FANOTIFY_INIT,
        SYS_QUOTACTL,
        // Capability manipulation
        SYS_CAPSET,
        // Cross-process
        SYS_PTRACE,
        SYS_PROCESS_VM_READV,
        SYS_PROCESS_VM_WRITEV,
        SYS_PIDFD_GETFD,
        // Handle bypass
        SYS_NAME_TO_HANDLE_AT,
        SYS_OPEN_BY_HANDLE_AT,
        // Clock manipulation
        SYS_CLOCK_SETTIME,
        SYS_CLOCK_ADJTIME,
        SYS_ADJTIMEX,
        SYS_SETTIMEOFDAY,
        // Memory policy
        SYS_SET_MEMPOLICY,
        SYS_MIGRATE_PAGES,
        SYS_MOVE_PAGES,
        SYS_MBIND,
        // Debug
        SYS_KCMP,
        // Historical / defense-in-depth
        SYS_VMSPLICE,
        SYS_IOPRIO_SET,
        // The x86 local descriptor table
        SYS_MODIFY_LDT,
    ]
}

/// Whether `nr` is on the mandatory-deny list.
pub open spec fn is_mandatory_denied(nr: i64) -> bool {
    ||| nr == SYS_UNSHARE
    ||| nr == SYS_SETNS
    ||| nr == SYS_MOUNT
    ||| nr == SYS_UMOUNT2
    ||| nr == SYS_PIVOT_ROOT
    ||| nr == SYS_CHROOT
    ||| nr == SYS_MOVE_MOUNT
    ||| nr == SYS_FSOPEN
    ||| nr == SYS_FSCONFIG
    ||| nr == SYS_FSMOUNT
    ||| nr == SYS_FSPICK
    ||| nr == SYS_OPEN_TREE
    ||| nr == SYS_MOUNT_SETATTR
    ||| nr == SYS_BPF
    ||| nr == SYS_KEYCTL
    ||| nr == SYS_ADD_KEY
    ||| nr == SYS_REQUEST_KEY
    ||| nr == SYS_PERF_EVENT_OPEN
    ||| nr == SYS_USERFAULTFD
    ||| nr == SYS_IO_URING_SETUP
    ||| nr == SYS_IO_URING_ENTER
    ||| nr == SYS_IO_URING_REGISTER
    ||| nr == SYS_INIT_MODULE
    ||| nr == SYS_FINIT_MODULE
    ||| nr == SYS_DELETE_MODULE
    ||| nr == SYS_REBOOT
    ||| nr == SYS_KEXEC_LOAD
    ||| nr == SYS_KEXEC_FILE_LOAD
    ||| nr == SYS_SWAPON
    ||| nr == SYS_SWAPOFF
    ||| nr == SYS_SYSFS
    ||| nr == SYS_SYSLOG
    ||| nr == SYS_IOPL
    ||| nr == SYS_IOPERM
    ||| nr == SYS_VHANGUP
    ||| nr == SYS_PERSONALITY
    ||| nr == SYS_ACCT
    ||| nr == SYS_SETHOSTNAME
    ||| nr == SYS_SETDOMAINNAME
    ||| nr == SYS_FANOTIFY_INIT
    ||| nr == SYS_QUOTACTL
    ||| nr == SYS_CAPSET
    ||| nr == SYS_PTRACE
    ||| nr == SYS_PROCESS_VM_READV
    ||| nr == SYS_PROCESS_VM_WRITEV
    ||| nr == SYS_PIDFD_GETFD
    ||| nr == SYS_NAME_TO_HANDLE_AT
    ||| nr == SYS_OPEN_BY_HANDLE_AT
    ||| nr == SYS_CLOCK_SETTIME
    ||| nr == SYS_CLOCK_ADJTIME
    ||| nr == SYS_ADJTIMEX
    ||| nr == SYS_SETTIMEOFDAY
    ||| nr == SYS_SET_MEMPOLICY
    ||| nr == SYS_MIGRATE_PAGES
    ||| nr == SYS_MOVE_PAGES
    ||| nr == SYS_MBIND
    ||| nr == SYS_KCMP
    ||| nr == SYS_VMSPLICE
    ||| nr == SYS_IOPRIO_SET
    ||| nr == SYS_MODIFY_LDT
}

/// Whether a process needs `nr` to unwind and exit.
pub open spec fn is_survival(nr: i64) -> bool {
    ||| nr == SYS_EXIT
    ||| nr == SYS_EXIT_GROUP
    ||| nr == SYS_RT_SIGRETURN
    ||| nr == SYS_RESTART_SYSCALL
}

/// The number of the system call that a policy names; `None` for a name that
/// is not recognized.
pub open spec fn syscall_nr(name: Seq<char>) -> Option<i64> {
    if name == "exit"@ {
        Some(SYS_EXIT)
    } else if name == "exit_group"@ {
        Some(SYS_EXIT_GROUP)
    } else if name == "rt_sigreturn"@ {
        Some(SYS_RT_SIGRETURN)
    } else if name == "rt_sigaction"@ {
        Some(SYS_RT_SIGACTION)
    } else if name == "rt_sigprocmask"@ {
        Some(SYS_RT_SIGPROCMASK)
    } else if name == "restart_syscall"@ {
        Some(SYS_RESTART_SYSCALL)
    } else if name == "sigaltstack"@ {
        Some(SYS_SIGALTSTACK)
    } else if name == "execve"@ {
        Some(SYS_EXECVE)
    } else if name == "wait4"@ {
        Some(SYS_WAIT4)
    } else if name == "brk"@ {
        Some(SYS_BRK)
    } else if name == "mmap"@ {
        Some(SYS_MMAP)
    } else if name == "munmap"@ {
        Some(SYS_MUNMAP)
    } else if name == "mprotect"@ {
        Some(SYS_MPROTECT)
    } else if name == "madvise"@ {
        Some(SYS_MADVISE)
    } else if name == "mremap"@ {
        Some(SYS_MREMAP)
    } else if name == "read"@ {
        Some(SYS_READ)
    } else if name == "readv"@ {
        Some(SYS_READV)
    } else if name == "pread64"@ {
        Some(SYS_PREAD64)
    } else if name == "write"@ {
        Some(SYS_WRITE)
    } else if name == "writev"@ {
        Some(SYS_WRITEV)
    } else if name == "pwrite64"@ {
        Some(SYS_PWRITE64)
    } else if name == "close"@ {
        Some(SYS_CLOSE)
    } else if name == "openat"@ {
        Some(SYS_OPENAT)
    } else if name == "fstat"@ {
        Some(SYS_FSTAT)
    } else if name == "newfstatat"@ {
        Some(SYS_NEWFSTATAT)
    } else if name == "lseek"@ {
        Some(SYS_LSEEK)
    } else if name == "ioctl"@ {
        Some(SYS_IOCTL)
    } else if name == "fcntl"@ {
        Some(SYS_FCNTL)
    } else if name == "dup"@ {
        Some(SYS_DUP)
    } else if name == "dup3"@ {
        Some(SYS_DUP3)
    } else if name == "pipe2"@ {
        Some(SYS_PIPE2)
    } else if name == "epoll_create1"@ {
        Some(SYS_EPOLL_CREATE1)
    } else if name == "epoll_ctl"@ {
        Some(SYS_EPOLL_CTL)
    } else if name == "epoll_pwait"@ {
        Some(SYS_EPOLL_PWAIT)
    } else if name == "ppoll"@ {
        Some(SYS_PPOLL)
    } else if name == "pselect6"@ {
        Some(SYS_PSELECT6)
    } else if name == "getdents64"@ {
        Some(SYS_GETDENTS64)
    } else if name == "getcwd"@ {
        Some(SYS_GETCWD)
    } else if name == "readlinkat"@ {
        Some(SYS_READLINKAT)
    } else if name == "faccessat"@ {
        Some(SYS_FACCESSAT)
    } else if name == "faccessat2"@ {
        Some(SYS_FACCESSAT2)
    } else if name == "futex"@ {
        Some(SYS_FUTEX)
    } else if name == "set_robust_list"@ {
        Some(SYS_SET_ROBUST_LIST)
    } else if name == "get_robust_list"@ {
        Some(SYS_GET_ROBUST_LIST)
    } else if name == "clone"@ {
        Some(SYS_CLONE)
    } else if name == "sched_yield"@ {
        Some(SYS_SCHED_YIELD)
    } else if name == "sched_getaffinity"@ {
        Some(SYS_SCHED_GETAFFINITY)
    } else if name == "set_tid_address"@ {
        Some(SYS_SET_TID_ADDRESS)
    } else if name == "rseq"@ {
        Some(SYS_RSEQ)
    } else if name == "clock_gettime"@ {
        Some(SYS_CLOCK_GETTIME)
    } else if name == "clock_getres"@ {
        Some(SYS_CLOCK_GETRES)
    } else if name == "clock_nanosleep"@ {
        Some(SYS_CLOCK_NANOSLEEP)
    } else if name == "nanosleep"@ {
        Some(SYS_NANOSLEEP)
    } else if name == "gettimeofday"@ {
        Some(SYS_GETTIMEOFDAY)
    } else if name == "getuid"@ {
        Some(SYS_GETUID)
    } else if name == "geteuid"@ {
        Some(SYS_GETEUID)
    } else if name == "getgid"@ {
        Some(SYS_GETGID)
    } else if name == "getegid"@ {
        Some(SYS_GETEGID)
    } else if name == "getpid"@ {
        Some(SYS_GETPID)
    } else if name == "gettid"@ {
        Some(SYS_GETTID)
    } else if name == "getppid"@ {
        Some(SYS_GETPPID)
    } else if name == "getrandom"@ {
        Some(SYS_GETRANDOM)
    } else if name == "prctl"@ {
        Some(SYS_PRCTL)
    } else if name == "socket"@ {
        Some(SYS_SOCKET)
    } else if name == "connect"@ {
        Some(SYS_CONNECT)
    } else if name == "bind"@ {
        Some(SYS_BIND)
    } else if name == "listen"@ {
        Some(SYS_LISTEN)
    } else if name == "accept4"@ {
        Some(SYS_ACCEPT4)
    } else if name == "getsockname"@ {
        Some(SYS_GETSOCKNAME)
    } else if name == "getpeername"@ {
        Some(SYS_GETPEERNAME)
    } else if name == "sendto"@ {
        Some(SYS_SENDTO)
    } else if name == "recvfrom"@ {
        Some(SYS_RECVFROM)
    } else if name == "sendmsg"@ {
        Some(SYS_SENDMSG)
    } else if name == "recvmsg"@ {
        Some(SYS_RECVMSG)
    } else if name == "shutdown"@ {
        Some(SYS_SHUTDOWN)
    } else if name == "setsockopt"@ {
        Some(SYS_SETSOCKOPT)
    } else if name == "getsockopt"@ {
        Some(SYS_GETSOCKOPT)
    } else if name == "arch_prctl"@ {
        Some(SYS_ARCH_PRCTL)
    } else {
        None
    }
}

/// The numbers of the calls that a policy may name.
pub open spec fn named_syscall_list() -> Seq<i64> {
    seq![
        SYS_EXIT,
        SYS_EXIT_GROUP,
        SYS_RT_SIGRETURN,
        SYS_RT_SIGACTION,
        SYS_RT_SIGPROCMASK,
        SYS_RESTART_SYSCALL,
        SYS_SIGALTSTACK,
        SYS_EXECVE,
        SYS_WAIT4,
        SYS_BRK,
        SYS_MMAP,
        SYS_MUNMAP,
        SYS_MPROTECT,
        SYS_MADVISE,
        SYS_MREMAP,
        SYS_READ,
        SYS_READV,
        SYS_PREAD64,
        SYS_WRITE,
        SYS_WRITEV,
        SYS_PWRITE64,
        SYS_CLOSE,
        SYS_OPENAT,
        SYS_FSTAT,
        SYS_NEWFSTATAT,
        SYS_LSEEK,
        SYS_IOCTL,
        SYS_FCNTL,
        SYS_DUP,
        SYS_DUP3,
        SYS_PIPE2,
        SYS_EPOLL_CREATE1,
        SYS_EPOLL_CTL,
        SYS_EPOLL_PWAIT,
        SYS_PPOLL,
        SYS_PSELECT6,
        SYS_GETDENTS64,
        SYS_GETCWD,
        SYS_READLINKAT,
        SYS_FACCESSAT,
        SYS_FACCESSAT2,
        SYS_FUTEX,
        SYS_SET_ROBUST_LIST,
        SYS_GET_ROBUST_LIST,
        SYS_CLONE,
        SYS_SCHED_YIELD,
        SYS_SCHED_GETAFFINITY,
        SYS_SET_TID_ADDRESS,
        SYS_RSEQ,
        SYS_CLOCK_GETTIME,
        SYS_CLOCK_GETRES,
        SYS_CLOCK_NANOSLEEP,
        SYS_NANOSLEEP,
        SYS_GETTIMEOFDAY,
        SYS_GETUID,
        SYS_GETEUID,
        SYS_GETGID,
        SYS_GETEGID,
        SYS_GETPID,
        SYS_GETTID,
        SYS_GETPPID,
        SYS_GETRANDOM,
        SYS_PRCTL,
        SYS_SOCKET,
        SYS_CONNECT,
        SYS_BIND,
        SYS_LISTEN,
        SYS_ACCEPT4,
        SYS_GETSOCKNAME,
        SYS_GETPEERNAME,
        SYS_SENDTO,
        SYS_RECVFROM,
        SYS_SENDMSG,
        SYS_RECVMSG,
        SYS_SHUTDOWN,
        SYS_SETSOCKOPT,
        SYS_GETSOCKOPT,
        SYS_ARCH_PRCTL,
    ]
}

/// Every name that resolves does so to a number on the list.
pub proof fn lemma_named_syscall_list(name: Seq<char>)
    ensures
        syscall_nr(name) matches Some(nr) ==> named_syscall_list().contains(nr),
        named_syscall_list().len() == 78,
{
    let list = named_syscall_list();
    assert(list[0] == SYS_EXIT);
    assert(list[1] == SYS_EXIT_GROUP);
    assert(list[2] == SYS_RT_SIGRETURN);
    assert(list[3] == SYS_RT_SIGACTION);
    assert(list[4] == SYS_RT_SIGPROCMASK);
    assert(list[5] == SYS_RESTART_SYSCALL);
    assert(list[6] == SYS_SIGALTSTACK);
    assert(list[7] == SYS_EXECVE);
    assert(list[8] == SYS_WAIT4);
    assert(list[9] == SYS_BRK);
    assert(list[10] == SYS_MMAP);
    assert(list[11] == SYS_MUNMAP);
    assert(list[12] == SYS_MPROTECT);
    assert(list[13] == SYS_MADVISE);
    assert(list[14] == SYS_MREMAP);
    assert(list[15] == SYS_READ);
    assert(list[16] == SYS_READV);
    assert(list[17] == SYS_PREAD64);
    assert(list[18] == SYS_WRITE);
    assert(list[19] == SYS_WRITEV);
    assert(list[20] == SYS_PWRITE64);
    assert(list[21] == SYS_CLOSE);
    assert(list[22] == SYS_OPENAT);
    assert(list[23] == SYS_FSTAT);
    assert(list[24] == SYS_NEWFSTATAT);
    assert(list[25] == SYS_LSEEK);
    assert(list[26] == SYS_IOCTL);
    assert(list[27] == SYS_FCNTL);
    assert(list[28] == SYS_DUP);
    assert(list[29] == SYS_DUP3);
    assert(list[30] == SYS_PIPE2);
    assert(list[31] == SYS_EPOLL_CREATE1);
    assert(list[32] == SYS_EPOLL_CTL);
    assert(list[33] == SYS_EPOLL_PWAIT);
    assert(list[34] == SYS_PPOLL);
    assert(list[35] == SYS_PSELECT6);
    assert(list[36] == SYS_GETDENTS64);
    assert(list[37] == SYS_GETCWD);
    assert(list[38] == SYS_READLINKAT);
    assert(list[39] == SYS_FACCESSAT);
    assert(list[40] == SYS_FACCESSAT2);
    assert(list[41] == SYS_FUTEX);
    assert(list[42] == SYS_SET_ROBUST_LIST);
    assert(list[43] == SYS_GET_ROBUST_LIST);
    assert(list[44] == SYS_CLONE);
    assert(list[45] == SYS_SCHED_YIELD);
    assert(list[46] == SYS_SCHED_GETAFFINITY);
    assert(list[47] == SYS_SET_TID_ADDRESS);
    assert(list[48] == SYS_RSEQ);
    assert(list[49] == SYS_CLOCK_GETTIME);
    assert(list[50] == SYS_CLOCK_GETRES);
    assert(list[51] == SYS_CLOCK_NANOSLEEP);
    assert(list[52] == SYS_NANOSLEEP);
    assert(list[53] == SYS_GETTIMEOFDAY);
    assert(list[54] == SYS_GETUID);
    assert(list[55] == SYS_GETEUID);
    assert(list[56] == SYS_GETGID);
    assert(list[57] == SYS_GETEGID);
    assert(list[58] == SYS_GETPID);
    assert(list[59] == SYS_GETTID);
    assert(list[60] == SYS_GETPPID);
    assert(list[61] == SYS_GETRANDOM);
    assert(list[62] == SYS_PRCTL);
    assert(list[63] == SYS_SOCKET);
    assert(list[64] == SYS_CONNECT);
    assert(list[65] == SYS_BIND);
    assert(list[66] == SYS_LISTEN);
    assert(list[67] == SYS_ACCEPT4);
    assert(list[68] == SYS_GETSOCKNAME);
    assert(list[69] == SYS_GETPEERNAME);
    assert(list[70] == SYS_SENDTO);
    assert(list[71] == SYS_RECVFROM);
    assert(list[72] == SYS_SENDMSG);
    assert(list[73] == SYS_RECVMSG);
    assert(list[74] == SYS_SHUTDOWN);
    assert(list[75] == SYS_SETSOCKOPT);
    assert(list[76] == SYS_GETSOCKOPT);
    assert(list[77] == SYS_ARCH_PRCTL);
}

/// The list holds exactly the numbers that `is_mandatory_denied` accepts.
pub proof fn lemma_mandatory_deny_list(nr: i64)
    ensures
        mandatory_deny_list().contains(nr) <==> is_mandatory_denied(nr),
{
    let list = mandatory_deny_list();
    assert(list[0] == SYS_UNSHARE);
    assert(list[1] == SYS_SETNS);
    assert(list[2] == SYS_MOUNT);
    assert(list[3] == SYS_UMOUNT2);
    assert(list[4] == SYS_PIVOT_ROOT);
    assert(list[5] == SYS_CHROOT);
    assert(list[6] == SYS_MOVE_MOUNT);
    assert(list[7] == SYS_FSOPEN);
    assert(list[8] == SYS_FSCONFIG);
    assert(list[9] == SYS_FSMOUNT);
    assert(list[10] == SYS_FSPICK);
    assert(list[11] == SYS_OPEN_TREE);
    assert(list[12] == SYS_MOUNT_SETATTR);
    assert(list[13] == SYS_BPF);
    assert(list[14] == SYS_KEYCTL);
    assert(list[15] == SYS_ADD_KEY);
    assert(list[16] == SYS_REQUEST_KEY);
    assert(list[17] == SYS_PERF_EVENT_OPEN);
    assert(list[18] == SYS_USERFAULTFD);
    assert(list[19] == SYS_IO_URING_SETUP);
    assert(list[20] == SYS_IO_URING_ENTER);
    assert(list[21] == SYS_IO_URING_REGISTER);
    assert(list[22] == SYS_INIT_MODULE);
    assert(list[23] == SYS_FINIT_MODULE);
    assert(list[24] == SYS_DELETE_MODULE);
    assert(list[25] == SYS_REBOOT);
    assert(list[26] == SYS_KEXEC_LOAD);
    assert(list[27] == SYS_KEXEC_FILE_LOAD);
    assert(list[28] == SYS_SWAPON);
    assert(list[29] == SYS_SWAPOFF);
    assert(list[30] == SYS_SYSFS);
    assert(list[31] == SYS_SYSLOG);
    assert(list[32] == SYS_IOPL);
    assert(list[33] == SYS_IOPERM);
    assert(list[34] == SYS_VHANGUP);
    assert(list[35] == SYS_PERSONALITY);
    assert(list[36] == SYS_ACCT);
    assert(list[37] == SYS_SETHOSTNAME);
    assert(list[38] == SYS_SETDOMAINNAME);
    assert(list[39] == SYS_FANOTIFY_INIT);
    assert(list[40] == SYS_QUOTACTL);
    assert(list[41] == SYS_CAPSET);
    assert(list[42] == SYS_PTRACE);
    assert(list[43] == SYS_PROCESS_VM_READV);
    assert(list[44] == SYS_PROCESS_VM_WRITEV);
    assert(list[45] == SYS_PIDFD_GETFD);
    assert(list[46] == SYS_NAME_TO_HANDLE_AT);
    assert(list[47] == SYS_OPEN_BY_HANDLE_AT);
    assert(list[48] == SYS_CLOCK_SETTIME);
    assert(list[49] == SYS_CLOCK_ADJTIME);
    assert(list[50] == SYS_ADJTIMEX);
    assert(list[51] == SYS_SETTIMEOFDAY);
    assert(list[52] == SYS_SET_MEMPOLICY);
    assert(list[53] == SYS_MIGRATE_PAGES);
    assert(list[54] == SYS_MOVE_PAGES);
    assert(list[55] == SYS_MBIND);
    assert(list[56] == SYS_KCMP);
    assert(list[57] == SYS_VMSPLICE);
    assert(list[58] == SYS_IOPRIO_SET);
    assert(list[59] == SYS_MODIFY_LDT);
    assert(list.len() == 60);
}

/// The syscalls that the denylist filter always blocks. A policy can widen
/// the set and can never take an entry out of it.
pub fn mandatory_deny_syscall_nrs() -> (r: Vec<i64>)
    ensures
        r@ == mandatory_deny_list(),
        forall|nr: i64| r@.contains(nr) <==> is_mandatory_denied(nr),
{
    let r: Vec<i64> = vec![
        // Namespace nesting
        SYS_UNSHARE,
        SYS_SETNS,
        // Mount manipulation
        SYS_MOUNT,
        SYS_UMOUNT2,
        SYS_PIVOT_ROOT,
        SYS_CHROOT,
        SYS_MOVE_MOUNT,
        SYS_FSOPEN,
        SYS_FSCONFIG,
        SYS_FSMOUNT,
        SYS_FSPICK,
        SYS_OPEN_TREE,
        SYS_MOUNT_SETATTR,
        // Kernel-bug surface
        SYS_BPF,
        SYS_KEYCTL,
        SYS_ADD_KEY,
        SYS_REQUEST_KEY,
        SYS_PERF_EVENT_OPEN,
        SYS_USERFAULTFD,
        SYS_IO_URING_SETUP,
        SYS_IO_URING_ENTER,
        SYS_IO_URING_REGISTER,
        // Module loading
        SYS_INIT_MODULE,
        SYS_FINIT_MODULE,
        SYS_DELETE_MODULE,
        // System control
        SYS_REBOOT,
        SYS_KEXEC_LOAD,
        SYS_KEXEC_FILE_LOAD,
        SYS_SWAPON,
        SYS_SWAPOFF,
        SYS_SYSFS,
        SYS_SYSLOG,
        SYS_IOPL,
        SYS_IOPERM,
        SYS_VHANGUP,
        SYS_PERSONALITY,
        SYS_ACCT,
        // UTS / hostname
        SYS_SETHOSTNAME,
        SYS_SETDOMAINNAME,
        // Filesystem monitoring / privileged fs control
        SYS_FANOTIFY_INIT,
        SYS_QUOTACTL,
        // Capability manipulation
        SYS_CAPSET,
        // Cross-process
        SYS_PTRACE,
        SYS_PROCESS_VM_READV,
        SYS_PROCESS_VM_WRITEV,
        SYS_PIDFD_GETFD,
        // Handle bypass
        SYS_NAME_TO_HANDLE_AT,
        SYS_OPEN_BY_HANDLE_AT,
        // Clock manipulation
        SYS_CLOCK_SETTIME,
        SYS_CLOCK_ADJTIME,
        SYS_ADJTIMEX,
        SYS_SETTIMEOFDAY,
        // Memory policy
        SYS_SET_MEMPOLICY,
        SYS_MIGRATE_PAGES,
        SYS_MOVE_PAGES,
        SYS_MBIND,
        // Debug
        SYS_KCMP,
        // Historical / defense-in-depth
        SYS_VMSPLICE,
        SYS_IOPRIO_SET,
        // The x86 local descriptor table
        SYS_MODIFY_LDT,
    ];
    assert(r@ =~= mandatory_deny_list());
    assert forall|nr: i64| r@.contains(nr) <==> is_mandatory_denied(nr) by {
        lemma_mandatory_deny_list(nr);
    }
    r
}

/// The minimal syscalls that a process needs to unwind and exit.
pub fn survival_syscall_nrs() -> (r: [i64; 4])
    ensures
        r@ == seq![SYS_EXIT, SYS_EXIT_GROUP, SYS_RT_SIGRETURN, SYS_RESTART_SYSCALL],
        forall|nr: i64| r@.contains(nr) <==> is_survival(nr),
{
    let r: [i64; 4] = [SYS_EXIT, SYS_EXIT_GROUP, SYS_RT_SIGRETURN, SYS_RESTART_SYSCALL];
    assert(r@ =~= seq![SYS_EXIT, SYS_EXIT_GROUP, SYS_RT_SIGRETURN, SYS_RESTART_SYSCALL]);
    assert(r@[0] == SYS_EXIT && r@[1] == SYS_EXIT_GROUP && r@[2] == SYS_RT_SIGRETURN && r@[3]
        == SYS_RESTART_SYSCALL);
    r
}

/// Whether a process needs `nr` to unwind and exit.
pub fn is_survival_syscall(nr: i64) -> (r: bool)
    ensures
        r == is_survival(nr),
{
    let survival = survival_syscall_nrs();
    let mut i: usize = 0;
    while i < 4
        invariant
            i <= 4,
            forall|n: i64| survival@.contains(n) <==> is_survival(n),
            forall|j: int| 0 <= j < i ==> survival@[j] != nr,
        decreases 4 - i,
    {
        if survival[i] == nr {
            assert(survival@[i as int] == nr);
            return true;
        }
        i = i + 1;
    }
    false
}

/// Whether `nr` is on the mandatory-deny list.
pub fn is_mandatory_deny_syscall(nr: i64) -> (r: bool)
    ensures
        r == is_mandatory_denied(nr),
{
    let denied = mandatory_deny_syscall_nrs();
    let mut i: usize = 0;
    while i < denied.len()
        invariant
            i <= denied@.len(),
            forall|n: i64| denied@.contains(n) <==> is_mandatory_denied(n),
            forall|j: int| 0 <= j < i ==> denied@[j] != nr,
        decreases denied@.len() - i,
    {
        if denied[i] == nr {
            assert(denied@[i as int] == nr);
            return true;
        }
        i = i + 1;
    }
    false
}

/// Resolves a system call name, as written in a policy, to its number.
///
/// Returns `None` for any name that is not recognized. The recognized set
/// holds modern spellings only: `openat` and not `open`, `ppoll` and not
/// `poll`.
pub fn nr_for_name(name: &str) -> (r: Option<i64>)
    ensures
        r == syscall_nr(name@),
{
    if str_equal(name, "exit") {
        Some(SYS_EXIT)
    } else if str_equal(name, "exit_group") {
        Some(SYS_EXIT_GROUP)
    } else if str_equal(name, "rt_sigreturn") {
        Some(SYS_RT_SIGRETURN)
    } else if str_equal(name, "rt_sigaction") {
        Some(SYS_RT_SIGACTION)
    } else if str_equal(name, "rt_sigprocmask") {
        Some(SYS_RT_SIGPROCMASK)
    } else if str_equal(name, "restart_syscall") {
        Some(SYS_RESTART_SYSCALL)
    } else if str_equal(name, "sigaltstack") {
        Some(SYS_SIGALTSTACK)
    } else if str_equal(name, "execve") {
        Some(SYS_EXECVE)
    } else if str_equal(name, "wait4") {
        Some(SYS_WAIT4)
    } else if str_equal(name, "brk") {
        Some(SYS_BRK)
    } else if str_equal(name, "mmap") {
        Some(SYS_MMAP)
    } else if str_equal(name, "munmap") {
        Some(SYS_MUNMAP)
    } else if str_equal(name, "mprotect") {
        Some(SYS_MPROTECT)
    } else if str_equal(name, "madvise") {
        Some(SYS_MADVISE)
    } else if str_equal(name, "mremap") {
        Some(SYS_MREMAP)
    } else if str_equal(name, "read") {
        Some(SYS_READ)
    } else if str_equal(name, "readv") {
        Some(SYS_READV)
    } else if str_equal(name, "pread64") {
        Some(SYS_PREAD64)
    } else if str_equal(name, "write") {
        Some(SYS_WRITE)
    } else if str_equal(name, "writev") {
        Some(SYS_WRITEV)
    } else if str_equal(name, "pwrite64") {
        Some(SYS_PWRITE64)
    } else if str_equal(name, "close") {
        Some(SYS_CLOSE)
    } else if str_equal(name, "openat") {
        Some(SYS_OPENAT)
    } else if str_equal(name, "fstat") {
        Some(SYS_FSTAT)
    } else if str_equal(name, "newfstatat") {
        Some(SYS_NEWFSTATAT)
    } else if str_equal(name, "lseek") {
        Some(SYS_LSEEK)
    } else if str_equal(name, "ioctl") {
        Some(SYS_IOCTL)
    } else if str_equal(name, "fcntl") {
        Some(SYS_FCNTL)
    } else if str_equal(name, "dup") {
        Some(SYS_DUP)
    } else if str_equal(name, "dup3") {
        Some(SYS_DUP3)
    } else if str_equal(name, "pipe2") {
        Some(SYS_PIPE2)
    } else if str_equal(name, "epoll_create1") {
        Some(SYS_EPOLL_CREATE1)
    } else if str_equal(name, "epoll_ctl") {
        Some(SYS_EPOLL_CTL)
    } else if str_equal(name, "epoll_pwait") {
        Some(SYS_EPOLL_PWAIT)
    } else if str_equal(name, "ppoll") {
        Some(SYS_PPOLL)
    } else if str_equal(name, "pselect6") {
        Some(SYS_PSELECT6)
    } else if str_equal(name, "getdents64") {
        Some(SYS_GETDENTS64)
    } else if str_equal(name, "getcwd") {
        Some(SYS_GETCWD)
    } else if str_equal(name, "readlinkat") {
        Some(SYS_READLINKAT)
    } else if str_equal(name, "faccessat") {
        Some(SYS_FACCESSAT)
    } else if str_equal(name, "faccessat2") {
        Some(SYS_FACCESSAT2)
    } else if str_equal(name, "futex") {
        Some(SYS_FUTEX)
    } else if str_equal(name, "set_robust_list") {
        Some(SYS_SET_ROBUST_LIST)
    } else if str_equal(name, "get_robust_list") {
        Some(SYS_GET_ROBUST_LIST)
    } else if str_equal(name, "clone") {
        Some(SYS_CLONE)
    } else if str_equal(name, "sched_yield") {
        Some(SYS_SCHED_YIELD)
    } else if str_equal(name, "sched_getaffinity") {
        Some(SYS_SCHED_GETAFFINITY)
    } else if str_equal(name, "set_tid_address") {
        Some(SYS_SET_TID_ADDRESS)
    } else if str_equal(name, "rseq") {
        Some(SYS_RSEQ)
    } else if str_equal(name, "clock_gettime") {
        Some(SYS_CLOCK_GETTIME)
    } else if str_equal(name, "clock_getres") {
        Some(SYS_CLOCK_GETRES)
    } else if str_equal(name, "clock_nanosleep") {
        Some(SYS_CLOCK_NANOSLEEP)
    } else if str_equal(name, "nanosleep") {
        Some(SYS_NANOSLEEP)
    } else if str_equal(name, "gettimeofday") {
        Some(SYS_GETTIMEOFDAY)
    } else if str_equal(name, "getuid") {
        Some(SYS_GETUID)
    } else if str_equal(name, "geteuid") {
        Some(SYS_GETEUID)
    } else if str_equal(name, "getgid") {
        Some(SYS_GETGID)
    } else if str_equal(name, "getegid") {
        Some(SYS_GETEGID)
    } else if str_equal(name, "getpid") {
        Some(SYS_GETPID)
    } else if str_equal(name, "gettid") {
        Some(SYS_GETTID)
    } else if str_equal(name, "getppid") {
        Some(SYS_GETPPID)
    } else if str_equal(name, "getrandom") {
        Some(SYS_GETRANDOM)
    } else if str_equal(name, "prctl") {
        Some(SYS_PRCTL)
    } else if str_equal(name, "socket") {
        Some(SYS_SOCKET)
    } else if str_equal(name, "connect") {
        Some(SYS_CONNECT)
    } else if str_equal(name, "bind") {
        Some(SYS_BIND)
    } else if str_equal(name, "listen") {
        Some(SYS_LISTEN)
    } else if str_equal(name, "accept4") {
        Some(SYS_ACCEPT4)
    } else if str_equal(name, "getsockname") {
        Some(SYS_GETSOCKNAME)
    } else if str_equal(name, "getpeername") {
        Some(SYS_GETPEERNAME)
    } else if str_equal(name, "sendto") {
        Some(SYS_SENDTO)
    } else if str_equal(name, "recvfrom") {
        Some(SYS_RECVFROM)
    } else if str_equal(name, "sendmsg") {
        Some(SYS_SENDMSG)
    } else if str_equal(name, "recvmsg") {
        Some(SYS_RECVMSG)
    } else if str_equal(name, "shutdown") {
        Some(SYS_SHUTDOWN)
    } else if str_equal(name, "setsockopt") {
        Some(SYS_SETSOCKOPT)
    } else if str_equal(name, "getsockopt") {
        Some(SYS_GETSOCKOPT)
    } else if str_equal(name, "arch_prctl") {
        Some(SYS_ARCH_PRCTL)
    } else {
        None
    }
}

/// No survival syscall is on the mandatory-deny list, so the built-in
/// baseline never traps a process that wants to exit.
pub proof fn lemma_mandatory_deny_disjoint_from_survival(nr: i64)
    ensures
        !(is_mandatory_denied(nr) && is_survival(nr)),
{
}

/// No name that a policy may use stands for a syscall on the mandatory-deny
/// list, so a policy cannot even name one to allow it.
pub proof fn lemma_named_syscalls_are_not_mandatory_denied(name: Seq<char>)
    ensures
        syscall_nr(name) matches Some(nr) ==> !is_mandatory_denied(nr),
{
}

/// Every named syscall number is one that a filter can hold.
pub proof fn lemma_named_syscalls_are_numbers(name: Seq<char>)
    ensures
        syscall_nr(name) matches Some(nr) ==> 0 <= nr <= u32::MAX,
{
}

} // verus!
