//! The system call tables, number by number.

use crate::unix::syscalls;
use vstd::prelude::*;

verus! {

/// What the recognized names are made of, letter by letter.
proof fn lemma_letters()
    ensures
        "exit"@.len() == 4
            && "exit"@[0] == 'e'
            && "exit"@[1] == 'x'
            && "exit"@[2] == 'i'
            && "exit"@[3] == 't',
        "exit_group"@.len() == 10
            && "exit_group"@[0] == 'e'
            && "exit_group"@[1] == 'x'
            && "exit_group"@[2] == 'i'
            && "exit_group"@[3] == 't'
            && "exit_group"@[4] == '_'
            && "exit_group"@[5] == 'g'
            && "exit_group"@[6] == 'r'
            && "exit_group"@[7] == 'o'
            && "exit_group"@[8] == 'u'
            && "exit_group"@[9] == 'p',
        "rt_sigreturn"@.len() == 12
            && "rt_sigreturn"@[0] == 'r'
            && "rt_sigreturn"@[1] == 't'
            && "rt_sigreturn"@[2] == '_'
            && "rt_sigreturn"@[3] == 's'
            && "rt_sigreturn"@[4] == 'i'
            && "rt_sigreturn"@[5] == 'g'
            && "rt_sigreturn"@[6] == 'r'
            && "rt_sigreturn"@[7] == 'e'
            && "rt_sigreturn"@[8] == 't'
            && "rt_sigreturn"@[9] == 'u'
            && "rt_sigreturn"@[10] == 'r'
            && "rt_sigreturn"@[11] == 'n',
        "rt_sigaction"@.len() == 12
            && "rt_sigaction"@[0] == 'r'
            && "rt_sigaction"@[1] == 't'
            && "rt_sigaction"@[2] == '_'
            && "rt_sigaction"@[3] == 's'
            && "rt_sigaction"@[4] == 'i'
            && "rt_sigaction"@[5] == 'g'
            && "rt_sigaction"@[6] == 'a'
            && "rt_sigaction"@[7] == 'c'
            && "rt_sigaction"@[8] == 't'
            && "rt_sigaction"@[9] == 'i'
            && "rt_sigaction"@[10] == 'o'
            && "rt_sigaction"@[11] == 'n',
        "rt_sigprocmask"@.len() == 14
            && "rt_sigprocmask"@[0] == 'r'
            && "rt_sigprocmask"@[1] == 't'
            && "rt_sigprocmask"@[2] == '_'
            && "rt_sigprocmask"@[3] == 's'
            && "rt_sigprocmask"@[4] == 'i'
            && "rt_sigprocmask"@[5] == 'g'
            && "rt_sigprocmask"@[6] == 'p'
            && "rt_sigprocmask"@[7] == 'r'
            && "rt_sigprocmask"@[8] == 'o'
            && "rt_sigprocmask"@[9] == 'c'
            && "rt_sigprocmask"@[10] == 'm'
            && "rt_sigprocmask"@[11] == 'a'
            && "rt_sigprocmask"@[12] == 's'
            && "rt_sigprocmask"@[13] == 'k',
        "restart_syscall"@.len() == 15
            && "restart_syscall"@[0] == 'r'
            && "restart_syscall"@[1] == 'e'
            && "restart_syscall"@[2] == 's'
            && "restart_syscall"@[3] == 't'
            && "restart_syscall"@[4] == 'a'
            && "restart_syscall"@[5] == 'r'
            && "restart_syscall"@[6] == 't'
            && "restart_syscall"@[7] == '_'
            && "restart_syscall"@[8] == 's'
            && "restart_syscall"@[9] == 'y'
            && "restart_syscall"@[10] == 's'
            && "restart_syscall"@[11] == 'c'
            && "restart_syscall"@[12] == 'a'
            && "restart_syscall"@[13] == 'l'
            && "restart_syscall"@[14] == 'l',
        "sigaltstack"@.len() == 11
            && "sigaltstack"@[0] == 's'
            && "sigaltstack"@[1] == 'i'
            && "sigaltstack"@[2] == 'g'
            && "sigaltstack"@[3] == 'a'
            && "sigaltstack"@[4] == 'l'
            && "sigaltstack"@[5] == 't'
            && "sigaltstack"@[6] == 's'
            && "sigaltstack"@[7] == 't'
            && "sigaltstack"@[8] == 'a'
            && "sigaltstack"@[9] == 'c'
            && "sigaltstack"@[10] == 'k',
        "execve"@.len() == 6
            && "execve"@[0] == 'e'
            && "execve"@[1] == 'x'
            && "execve"@[2] == 'e'
            && "execve"@[3] == 'c'
            && "execve"@[4] == 'v'
            && "execve"@[5] == 'e',
        "wait4"@.len() == 5
            && "wait4"@[0] == 'w'
            && "wait4"@[1] == 'a'
            && "wait4"@[2] == 'i'
            && "wait4"@[3] == 't'
            && "wait4"@[4] == '4',
        "brk"@.len() == 3
            && "brk"@[0] == 'b'
            && "brk"@[1] == 'r'
            && "brk"@[2] == 'k',
        "mmap"@.len() == 4
            && "mmap"@[0] == 'm'
            && "mmap"@[1] == 'm'
            && "mmap"@[2] == 'a'
            && "mmap"@[3] == 'p',
        "munmap"@.len() == 6
            && "munmap"@[0] == 'm'
            && "munmap"@[1] == 'u'
            && "munmap"@[2] == 'n'
            && "munmap"@[3] == 'm'
            && "munmap"@[4] == 'a'
            && "munmap"@[5] == 'p',
        "mprotect"@.len() == 8
            && "mprotect"@[0] == 'm'
            && "mprotect"@[1] == 'p'
            && "mprotect"@[2] == 'r'
            && "mprotect"@[3] == 'o'
            && "mprotect"@[4] == 't'
            && "mprotect"@[5] == 'e'
            && "mprotect"@[6] == 'c'
            && "mprotect"@[7] == 't',
        "madvise"@.len() == 7
            && "madvise"@[0] == 'm'
            && "madvise"@[1] == 'a'
            && "madvise"@[2] == 'd'
            && "madvise"@[3] == 'v'
            && "madvise"@[4] == 'i'
            && "madvise"@[5] == 's'
            && "madvise"@[6] == 'e',
        "mremap"@.len() == 6
            && "mremap"@[0] == 'm'
            && "mremap"@[1] == 'r'
            && "mremap"@[2] == 'e'
            && "mremap"@[3] == 'm'
            && "mremap"@[4] == 'a'
            && "mremap"@[5] == 'p',
        "read"@.len() == 4
            && "read"@[0] == 'r'
            && "read"@[1] == 'e'
            && "read"@[2] == 'a'
            && "read"@[3] == 'd',
        "readv"@.len() == 5
            && "readv"@[0] == 'r'
            && "readv"@[1] == 'e'
            && "readv"@[2] == 'a'
            && "readv"@[3] == 'd'
            && "readv"@[4] == 'v',
        "pread64"@.len() == 7
            && "pread64"@[0] == 'p'
            && "pread64"@[1] == 'r'
            && "pread64"@[2] == 'e'
            && "pread64"@[3] == 'a'
            && "pread64"@[4] == 'd'
            && "pread64"@[5] == '6'
            && "pread64"@[6] == '4',
        "write"@.len() == 5
            && "write"@[0] == 'w'
            && "write"@[1] == 'r'
            && "write"@[2] == 'i'
            && "write"@[3] == 't'
            && "write"@[4] == 'e',
        "writev"@.len() == 6
            && "writev"@[0] == 'w'
            && "writev"@[1] == 'r'
            && "writev"@[2] == 'i'
            && "writev"@[3] == 't'
            && "writev"@[4] == 'e'
            && "writev"@[5] == 'v',
        "pwrite64"@.len() == 8
            && "pwrite64"@[0] == 'p'
            && "pwrite64"@[1] == 'w'
            && "pwrite64"@[2] == 'r'
            && "pwrite64"@[3] == 'i'
            && "pwrite64"@[4] == 't'
            && "pwrite64"@[5] == 'e'
            && "pwrite64"@[6] == '6'
            && "pwrite64"@[7] == '4',
        "close"@.len() == 5
            && "close"@[0] == 'c'
            && "close"@[1] == 'l'
            && "close"@[2] == 'o'
            && "close"@[3] == 's'
            && "close"@[4] == 'e',
        "openat"@.len() == 6
            && "openat"@[0] == 'o'
            && "openat"@[1] == 'p'
            && "openat"@[2] == 'e'
            && "openat"@[3] == 'n'
            && "openat"@[4] == 'a'
            && "openat"@[5] == 't',
        "fstat"@.len() == 5
            && "fstat"@[0] == 'f'
            && "fstat"@[1] == 's'
            && "fstat"@[2] == 't'
            && "fstat"@[3] == 'a'
            && "fstat"@[4] == 't',
        "newfstatat"@.len() == 10
            && "newfstatat"@[0] == 'n'
            && "newfstatat"@[1] == 'e'
            && "newfstatat"@[2] == 'w'
            && "newfstatat"@[3] == 'f'
            && "newfstatat"@[4] == 's'
            && "newfstatat"@[5] == 't'
            && "newfstatat"@[6] == 'a'
            && "newfstatat"@[7] == 't'
            && "newfstatat"@[8] == 'a'
            && "newfstatat"@[9] == 't',
        "lseek"@.len() == 5
            && "lseek"@[0] == 'l'
            && "lseek"@[1] == 's'
            && "lseek"@[2] == 'e'
            && "lseek"@[3] == 'e'
            && "lseek"@[4] == 'k',
        "ioctl"@.len() == 5
            && "ioctl"@[0] == 'i'
            && "ioctl"@[1] == 'o'
            && "ioctl"@[2] == 'c'
            && "ioctl"@[3] == 't'
            && "ioctl"@[4] == 'l',
        "fcntl"@.len() == 5
            && "fcntl"@[0] == 'f'
            && "fcntl"@[1] == 'c'
            && "fcntl"@[2] == 'n'
            && "fcntl"@[3] == 't'
            && "fcntl"@[4] == 'l',
        "dup"@.len() == 3
            && "dup"@[0] == 'd'
            && "dup"@[1] == 'u'
            && "dup"@[2] == 'p',
        "dup3"@.len() == 4
            && "dup3"@[0] == 'd'
            && "dup3"@[1] == 'u'
            && "dup3"@[2] == 'p'
            && "dup3"@[3] == '3',
        "pipe2"@.len() == 5
            && "pipe2"@[0] == 'p'
            && "pipe2"@[1] == 'i'
            && "pipe2"@[2] == 'p'
            && "pipe2"@[3] == 'e'
            && "pipe2"@[4] == '2',
        "epoll_create1"@.len() == 13
            && "epoll_create1"@[0] == 'e'
            && "epoll_create1"@[1] == 'p'
            && "epoll_create1"@[2] == 'o'
            && "epoll_create1"@[3] == 'l'
            && "epoll_create1"@[4] == 'l'
            && "epoll_create1"@[5] == '_'
            && "epoll_create1"@[6] == 'c'
            && "epoll_create1"@[7] == 'r'
            && "epoll_create1"@[8] == 'e'
            && "epoll_create1"@[9] == 'a'
            && "epoll_create1"@[10] == 't'
            && "epoll_create1"@[11] == 'e'
            && "epoll_create1"@[12] == '1',
        "epoll_ctl"@.len() == 9
            && "epoll_ctl"@[0] == 'e'
            && "epoll_ctl"@[1] == 'p'
            && "epoll_ctl"@[2] == 'o'
            && "epoll_ctl"@[3] == 'l'
            && "epoll_ctl"@[4] == 'l'
            && "epoll_ctl"@[5] == '_'
            && "epoll_ctl"@[6] == 'c'
            && "epoll_ctl"@[7] == 't'
            && "epoll_ctl"@[8] == 'l',
        "epoll_pwait"@.len() == 11
            && "epoll_pwait"@[0] == 'e'
            && "epoll_pwait"@[1] == 'p'
            && "epoll_pwait"@[2] == 'o'
            && "epoll_pwait"@[3] == 'l'
            && "epoll_pwait"@[4] == 'l'
            && "epoll_pwait"@[5] == '_'
            && "epoll_pwait"@[6] == 'p'
            && "epoll_pwait"@[7] == 'w'
            && "epoll_pwait"@[8] == 'a'
            && "epoll_pwait"@[9] == 'i'
            && "epoll_pwait"@[10] == 't',
        "ppoll"@.len() == 5
            && "ppoll"@[0] == 'p'
            && "ppoll"@[1] == 'p'
            && "ppoll"@[2] == 'o'
            && "ppoll"@[3] == 'l'
            && "ppoll"@[4] == 'l',
        "pselect6"@.len() == 8
            && "pselect6"@[0] == 'p'
            && "pselect6"@[1] == 's'
            && "pselect6"@[2] == 'e'
            && "pselect6"@[3] == 'l'
            && "pselect6"@[4] == 'e'
            && "pselect6"@[5] == 'c'
            && "pselect6"@[6] == 't'
            && "pselect6"@[7] == '6',
        "getdents64"@.len() == 10
            && "getdents64"@[0] == 'g'
            && "getdents64"@[1] == 'e'
            && "getdents64"@[2] == 't'
            && "getdents64"@[3] == 'd'
            && "getdents64"@[4] == 'e'
            && "getdents64"@[5] == 'n'
            && "getdents64"@[6] == 't'
            && "getdents64"@[7] == 's'
            && "getdents64"@[8] == '6'
            && "getdents64"@[9] == '4',
        "getcwd"@.len() == 6
            && "getcwd"@[0] == 'g'
            && "getcwd"@[1] == 'e'
            && "getcwd"@[2] == 't'
            && "getcwd"@[3] == 'c'
            && "getcwd"@[4] == 'w'
            && "getcwd"@[5] == 'd',
        "readlinkat"@.len() == 10
            && "readlinkat"@[0] == 'r'
            && "readlinkat"@[1] == 'e'
            && "readlinkat"@[2] == 'a'
            && "readlinkat"@[3] == 'd'
            && "readlinkat"@[4] == 'l'
            && "readlinkat"@[5] == 'i'
            && "readlinkat"@[6] == 'n'
            && "readlinkat"@[7] == 'k'
            && "readlinkat"@[8] == 'a'
            && "readlinkat"@[9] == 't',
        "faccessat"@.len() == 9
            && "faccessat"@[0] == 'f'
            && "faccessat"@[1] == 'a'
            && "faccessat"@[2] == 'c'
            && "faccessat"@[3] == 'c'
            && "faccessat"@[4] == 'e'
            && "faccessat"@[5] == 's'
            && "faccessat"@[6] == 's'
            && "faccessat"@[7] == 'a'
            && "faccessat"@[8] == 't',
        "faccessat2"@.len() == 10
            && "faccessat2"@[0] == 'f'
            && "faccessat2"@[1] == 'a'
            && "faccessat2"@[2] == 'c'
            && "faccessat2"@[3] == 'c'
            && "faccessat2"@[4] == 'e'
            && "faccessat2"@[5] == 's'
            && "faccessat2"@[6] == 's'
            && "faccessat2"@[7] == 'a'
            && "faccessat2"@[8] == 't'
            && "faccessat2"@[9] == '2',
        "futex"@.len() == 5
            && "futex"@[0] == 'f'
            && "futex"@[1] == 'u'
            && "futex"@[2] == 't'
            && "futex"@[3] == 'e'
            && "futex"@[4] == 'x',
        "set_robust_list"@.len() == 15
            && "set_robust_list"@[0] == 's'
            && "set_robust_list"@[1] == 'e'
            && "set_robust_list"@[2] == 't'
            && "set_robust_list"@[3] == '_'
            && "set_robust_list"@[4] == 'r'
            && "set_robust_list"@[5] == 'o'
            && "set_robust_list"@[6] == 'b'
            && "set_robust_list"@[7] == 'u'
            && "set_robust_list"@[8] == 's'
            && "set_robust_list"@[9] == 't'
            && "set_robust_list"@[10] == '_'
            && "set_robust_list"@[11] == 'l'
            && "set_robust_list"@[12] == 'i'
            && "set_robust_list"@[13] == 's'
            && "set_robust_list"@[14] == 't',
        "get_robust_list"@.len() == 15
            && "get_robust_list"@[0] == 'g'
            && "get_robust_list"@[1] == 'e'
            && "get_robust_list"@[2] == 't'
            && "get_robust_list"@[3] == '_'
            && "get_robust_list"@[4] == 'r'
            && "get_robust_list"@[5] == 'o'
            && "get_robust_list"@[6] == 'b'
            && "get_robust_list"@[7] == 'u'
            && "get_robust_list"@[8] == 's'
            && "get_robust_list"@[9] == 't'
            && "get_robust_list"@[10] == '_'
            && "get_robust_list"@[11] == 'l'
            && "get_robust_list"@[12] == 'i'
            && "get_robust_list"@[13] == 's'
            && "get_robust_list"@[14] == 't',
        "clone"@.len() == 5
            && "clone"@[0] == 'c'
            && "clone"@[1] == 'l'
            && "clone"@[2] == 'o'
            && "clone"@[3] == 'n'
            && "clone"@[4] == 'e',
        "sched_yield"@.len() == 11
            && "sched_yield"@[0] == 's'
            && "sched_yield"@[1] == 'c'
            && "sched_yield"@[2] == 'h'
            && "sched_yield"@[3] == 'e'
            && "sched_yield"@[4] == 'd'
            && "sched_yield"@[5] == '_'
            && "sched_yield"@[6] == 'y'
            && "sched_yield"@[7] == 'i'
            && "sched_yield"@[8] == 'e'
            && "sched_yield"@[9] == 'l'
            && "sched_yield"@[10] == 'd',
        "sched_getaffinity"@.len() == 17
            && "sched_getaffinity"@[0] == 's'
            && "sched_getaffinity"@[1] == 'c'
            && "sched_getaffinity"@[2] == 'h'
            && "sched_getaffinity"@[3] == 'e'
            && "sched_getaffinity"@[4] == 'd'
            && "sched_getaffinity"@[5] == '_'
            && "sched_getaffinity"@[6] == 'g'
            && "sched_getaffinity"@[7] == 'e'
            && "sched_getaffinity"@[8] == 't'
            && "sched_getaffinity"@[9] == 'a'
            && "sched_getaffinity"@[10] == 'f'
            && "sched_getaffinity"@[11] == 'f'
            && "sched_getaffinity"@[12] == 'i'
            && "sched_getaffinity"@[13] == 'n'
            && "sched_getaffinity"@[14] == 'i'
            && "sched_getaffinity"@[15] == 't'
            && "sched_getaffinity"@[16] == 'y',
        "set_tid_address"@.len() == 15
            && "set_tid_address"@[0] == 's'
            && "set_tid_address"@[1] == 'e'
            && "set_tid_address"@[2] == 't'
            && "set_tid_address"@[3] == '_'
            && "set_tid_address"@[4] == 't'
            && "set_tid_address"@[5] == 'i'
            && "set_tid_address"@[6] == 'd'
            && "set_tid_address"@[7] == '_'
            && "set_tid_address"@[8] == 'a'
            && "set_tid_address"@[9] == 'd'
            && "set_tid_address"@[10] == 'd'
            && "set_tid_address"@[11] == 'r'
            && "set_tid_address"@[12] == 'e'
            && "set_tid_address"@[13] == 's'
            && "set_tid_address"@[14] == 's',
        "rseq"@.len() == 4
            && "rseq"@[0] == 'r'
            && "rseq"@[1] == 's'
            && "rseq"@[2] == 'e'
            && "rseq"@[3] == 'q',
        "clock_gettime"@.len() == 13
            && "clock_gettime"@[0] == 'c'
            && "clock_gettime"@[1] == 'l'
            && "clock_gettime"@[2] == 'o'
            && "clock_gettime"@[3] == 'c'
            && "clock_gettime"@[4] == 'k'
            && "clock_gettime"@[5] == '_'
            && "clock_gettime"@[6] == 'g'
            && "clock_gettime"@[7] == 'e'
            && "clock_gettime"@[8] == 't'
            && "clock_gettime"@[9] == 't'
            && "clock_gettime"@[10] == 'i'
            && "clock_gettime"@[11] == 'm'
            && "clock_gettime"@[12] == 'e',
        "clock_getres"@.len() == 12
            && "clock_getres"@[0] == 'c'
            && "clock_getres"@[1] == 'l'
            && "clock_getres"@[2] == 'o'
            && "clock_getres"@[3] == 'c'
            && "clock_getres"@[4] == 'k'
            && "clock_getres"@[5] == '_'
            && "clock_getres"@[6] == 'g'
            && "clock_getres"@[7] == 'e'
            && "clock_getres"@[8] == 't'
            && "clock_getres"@[9] == 'r'
            && "clock_getres"@[10] == 'e'
            && "clock_getres"@[11] == 's',
        "clock_nanosleep"@.len() == 15
            && "clock_nanosleep"@[0] == 'c'
            && "clock_nanosleep"@[1] == 'l'
            && "clock_nanosleep"@[2] == 'o'
            && "clock_nanosleep"@[3] == 'c'
            && "clock_nanosleep"@[4] == 'k'
            && "clock_nanosleep"@[5] == '_'
            && "clock_nanosleep"@[6] == 'n'
            && "clock_nanosleep"@[7] == 'a'
            && "clock_nanosleep"@[8] == 'n'
            && "clock_nanosleep"@[9] == 'o'
            && "clock_nanosleep"@[10] == 's'
            && "clock_nanosleep"@[11] == 'l'
            && "clock_nanosleep"@[12] == 'e'
            && "clock_nanosleep"@[13] == 'e'
            && "clock_nanosleep"@[14] == 'p',
        "nanosleep"@.len() == 9
            && "nanosleep"@[0] == 'n'
            && "nanosleep"@[1] == 'a'
            && "nanosleep"@[2] == 'n'
            && "nanosleep"@[3] == 'o'
            && "nanosleep"@[4] == 's'
            && "nanosleep"@[5] == 'l'
            && "nanosleep"@[6] == 'e'
            && "nanosleep"@[7] == 'e'
            && "nanosleep"@[8] == 'p',
        "gettimeofday"@.len() == 12
            && "gettimeofday"@[0] == 'g'
            && "gettimeofday"@[1] == 'e'
            && "gettimeofday"@[2] == 't'
            && "gettimeofday"@[3] == 't'
            && "gettimeofday"@[4] == 'i'
            && "gettimeofday"@[5] == 'm'
            && "gettimeofday"@[6] == 'e'
            && "gettimeofday"@[7] == 'o'
            && "gettimeofday"@[8] == 'f'
            && "gettimeofday"@[9] == 'd'
            && "gettimeofday"@[10] == 'a'
            && "gettimeofday"@[11] == 'y',
        "getuid"@.len() == 6
            && "getuid"@[0] == 'g'
            && "getuid"@[1] == 'e'
            && "getuid"@[2] == 't'
            && "getuid"@[3] == 'u'
            && "getuid"@[4] == 'i'
            && "getuid"@[5] == 'd',
        "geteuid"@.len() == 7
            && "geteuid"@[0] == 'g'
            && "geteuid"@[1] == 'e'
            && "geteuid"@[2] == 't'
            && "geteuid"@[3] == 'e'
            && "geteuid"@[4] == 'u'
            && "geteuid"@[5] == 'i'
            && "geteuid"@[6] == 'd',
        "getgid"@.len() == 6
            && "getgid"@[0] == 'g'
            && "getgid"@[1] == 'e'
            && "getgid"@[2] == 't'
            && "getgid"@[3] == 'g'
            && "getgid"@[4] == 'i'
            && "getgid"@[5] == 'd',
        "getegid"@.len() == 7
            && "getegid"@[0] == 'g'
            && "getegid"@[1] == 'e'
            && "getegid"@[2] == 't'
            && "getegid"@[3] == 'e'
            && "getegid"@[4] == 'g'
            && "getegid"@[5] == 'i'
            && "getegid"@[6] == 'd',
        "getpid"@.len() == 6
            && "getpid"@[0] == 'g'
            && "getpid"@[1] == 'e'
            && "getpid"@[2] == 't'
            && "getpid"@[3] == 'p'
            && "getpid"@[4] == 'i'
            && "getpid"@[5] == 'd',
        "gettid"@.len() == 6
            && "gettid"@[0] == 'g'
            && "gettid"@[1] == 'e'
            && "gettid"@[2] == 't'
            && "gettid"@[3] == 't'
            && "gettid"@[4] == 'i'
            && "gettid"@[5] == 'd',
        "getppid"@.len() == 7
            && "getppid"@[0] == 'g'
            && "getppid"@[1] == 'e'
            && "getppid"@[2] == 't'
            && "getppid"@[3] == 'p'
            && "getppid"@[4] == 'p'
            && "getppid"@[5] == 'i'
            && "getppid"@[6] == 'd',
        "getrandom"@.len() == 9
            && "getrandom"@[0] == 'g'
            && "getrandom"@[1] == 'e'
            && "getrandom"@[2] == 't'
            && "getrandom"@[3] == 'r'
            && "getrandom"@[4] == 'a'
            && "getrandom"@[5] == 'n'
            && "getrandom"@[6] == 'd'
            && "getrandom"@[7] == 'o'
            && "getrandom"@[8] == 'm',
        "prctl"@.len() == 5
            && "prctl"@[0] == 'p'
            && "prctl"@[1] == 'r'
            && "prctl"@[2] == 'c'
            && "prctl"@[3] == 't'
            && "prctl"@[4] == 'l',
        "socket"@.len() == 6
            && "socket"@[0] == 's'
            && "socket"@[1] == 'o'
            && "socket"@[2] == 'c'
            && "socket"@[3] == 'k'
            && "socket"@[4] == 'e'
            && "socket"@[5] == 't',
        "connect"@.len() == 7
            && "connect"@[0] == 'c'
            && "connect"@[1] == 'o'
            && "connect"@[2] == 'n'
            && "connect"@[3] == 'n'
            && "connect"@[4] == 'e'
            && "connect"@[5] == 'c'
            && "connect"@[6] == 't',
        "bind"@.len() == 4
            && "bind"@[0] == 'b'
            && "bind"@[1] == 'i'
            && "bind"@[2] == 'n'
            && "bind"@[3] == 'd',
        "listen"@.len() == 6
            && "listen"@[0] == 'l'
            && "listen"@[1] == 'i'
            && "listen"@[2] == 's'
            && "listen"@[3] == 't'
            && "listen"@[4] == 'e'
            && "listen"@[5] == 'n',
        "accept4"@.len() == 7
            && "accept4"@[0] == 'a'
            && "accept4"@[1] == 'c'
            && "accept4"@[2] == 'c'
            && "accept4"@[3] == 'e'
            && "accept4"@[4] == 'p'
            && "accept4"@[5] == 't'
            && "accept4"@[6] == '4',
        "getsockname"@.len() == 11
            && "getsockname"@[0] == 'g'
            && "getsockname"@[1] == 'e'
            && "getsockname"@[2] == 't'
            && "getsockname"@[3] == 's'
            && "getsockname"@[4] == 'o'
            && "getsockname"@[5] == 'c'
            && "getsockname"@[6] == 'k'
            && "getsockname"@[7] == 'n'
            && "getsockname"@[8] == 'a'
            && "getsockname"@[9] == 'm'
            && "getsockname"@[10] == 'e',
        "getpeername"@.len() == 11
            && "getpeername"@[0] == 'g'
            && "getpeername"@[1] == 'e'
            && "getpeername"@[2] == 't'
            && "getpeername"@[3] == 'p'
            && "getpeername"@[4] == 'e'
            && "getpeername"@[5] == 'e'
            && "getpeername"@[6] == 'r'
            && "getpeername"@[7] == 'n'
            && "getpeername"@[8] == 'a'
            && "getpeername"@[9] == 'm'
            && "getpeername"@[10] == 'e',
        "sendto"@.len() == 6
            && "sendto"@[0] == 's'
            && "sendto"@[1] == 'e'
            && "sendto"@[2] == 'n'
            && "sendto"@[3] == 'd'
            && "sendto"@[4] == 't'
            && "sendto"@[5] == 'o',
        "recvfrom"@.len() == 8
            && "recvfrom"@[0] == 'r'
            && "recvfrom"@[1] == 'e'
            && "recvfrom"@[2] == 'c'
            && "recvfrom"@[3] == 'v'
            && "recvfrom"@[4] == 'f'
            && "recvfrom"@[5] == 'r'
            && "recvfrom"@[6] == 'o'
            && "recvfrom"@[7] == 'm',
        "sendmsg"@.len() == 7
            && "sendmsg"@[0] == 's'
            && "sendmsg"@[1] == 'e'
            && "sendmsg"@[2] == 'n'
            && "sendmsg"@[3] == 'd'
            && "sendmsg"@[4] == 'm'
            && "sendmsg"@[5] == 's'
            && "sendmsg"@[6] == 'g',
        "recvmsg"@.len() == 7
            && "recvmsg"@[0] == 'r'
            && "recvmsg"@[1] == 'e'
            && "recvmsg"@[2] == 'c'
            && "recvmsg"@[3] == 'v'
            && "recvmsg"@[4] == 'm'
            && "recvmsg"@[5] == 's'
            && "recvmsg"@[6] == 'g',
        "shutdown"@.len() == 8
            && "shutdown"@[0] == 's'
            && "shutdown"@[1] == 'h'
            && "shutdown"@[2] == 'u'
            && "shutdown"@[3] == 't'
            && "shutdown"@[4] == 'd'
            && "shutdown"@[5] == 'o'
            && "shutdown"@[6] == 'w'
            && "shutdown"@[7] == 'n',
        "setsockopt"@.len() == 10
            && "setsockopt"@[0] == 's'
            && "setsockopt"@[1] == 'e'
            && "setsockopt"@[2] == 't'
            && "setsockopt"@[3] == 's'
            && "setsockopt"@[4] == 'o'
            && "setsockopt"@[5] == 'c'
            && "setsockopt"@[6] == 'k'
            && "setsockopt"@[7] == 'o'
            && "setsockopt"@[8] == 'p'
            && "setsockopt"@[9] == 't',
        "getsockopt"@.len() == 10
            && "getsockopt"@[0] == 'g'
            && "getsockopt"@[1] == 'e'
            && "getsockopt"@[2] == 't'
            && "getsockopt"@[3] == 's'
            && "getsockopt"@[4] == 'o'
            && "getsockopt"@[5] == 'c'
            && "getsockopt"@[6] == 'k'
            && "getsockopt"@[7] == 'o'
            && "getsockopt"@[8] == 'p'
            && "getsockopt"@[9] == 't',
        "arch_prctl"@.len() == 10
            && "arch_prctl"@[0] == 'a'
            && "arch_prctl"@[1] == 'r'
            && "arch_prctl"@[2] == 'c'
            && "arch_prctl"@[3] == 'h'
            && "arch_prctl"@[4] == '_'
            && "arch_prctl"@[5] == 'p'
            && "arch_prctl"@[6] == 'r'
            && "arch_prctl"@[7] == 'c'
            && "arch_prctl"@[8] == 't'
            && "arch_prctl"@[9] == 'l',
{
    reveal_strlit("exit");
    reveal_strlit("exit_group");
    reveal_strlit("rt_sigreturn");
    reveal_strlit("rt_sigaction");
    reveal_strlit("rt_sigprocmask");
    reveal_strlit("restart_syscall");
    reveal_strlit("sigaltstack");
    reveal_strlit("execve");
    reveal_strlit("wait4");
    reveal_strlit("brk");
    reveal_strlit("mmap");
    reveal_strlit("munmap");
    reveal_strlit("mprotect");
    reveal_strlit("madvise");
    reveal_strlit("mremap");
    reveal_strlit("read");
    reveal_strlit("readv");
    reveal_strlit("pread64");
    reveal_strlit("write");
    reveal_strlit("writev");
    reveal_strlit("pwrite64");
    reveal_strlit("close");
    reveal_strlit("openat");
    reveal_strlit("fstat");
    reveal_strlit("newfstatat");
    reveal_strlit("lseek");
    reveal_strlit("ioctl");
    reveal_strlit("fcntl");
    reveal_strlit("dup");
    reveal_strlit("dup3");
    reveal_strlit("pipe2");
    reveal_strlit("epoll_create1");
    reveal_strlit("epoll_ctl");
    reveal_strlit("epoll_pwait");
    reveal_strlit("ppoll");
    reveal_strlit("pselect6");
    reveal_strlit("getdents64");
    reveal_strlit("getcwd");
    reveal_strlit("readlinkat");
    reveal_strlit("faccessat");
    reveal_strlit("faccessat2");
    reveal_strlit("futex");
    reveal_strlit("set_robust_list");
    reveal_strlit("get_robust_list");
    reveal_strlit("clone");
    reveal_strlit("sched_yield");
    reveal_strlit("sched_getaffinity");
    reveal_strlit("set_tid_address");
    reveal_strlit("rseq");
    reveal_strlit("clock_gettime");
    reveal_strlit("clock_getres");
    reveal_strlit("clock_nanosleep");
    reveal_strlit("nanosleep");
    reveal_strlit("gettimeofday");
    reveal_strlit("getuid");
    reveal_strlit("geteuid");
    reveal_strlit("getgid");
    reveal_strlit("getegid");
    reveal_strlit("getpid");
    reveal_strlit("gettid");
    reveal_strlit("getppid");
    reveal_strlit("getrandom");
    reveal_strlit("prctl");
    reveal_strlit("socket");
    reveal_strlit("connect");
    reveal_strlit("bind");
    reveal_strlit("listen");
    reveal_strlit("accept4");
    reveal_strlit("getsockname");
    reveal_strlit("getpeername");
    reveal_strlit("sendto");
    reveal_strlit("recvfrom");
    reveal_strlit("sendmsg");
    reveal_strlit("recvmsg");
    reveal_strlit("shutdown");
    reveal_strlit("setsockopt");
    reveal_strlit("getsockopt");
    reveal_strlit("arch_prctl");
}

/// Each name that a policy may use stands for the call of that name, by the
/// number that the kernel has for it on x86-64.
#[verifier::rlimit(100)]
pub proof fn lemma_names_have_their_numbers()
    ensures
        syscalls::syscall_nr("exit"@) == Some(60i64),
        syscalls::syscall_nr("exit_group"@) == Some(231i64),
        syscalls::syscall_nr("rt_sigreturn"@) == Some(15i64),
        syscalls::syscall_nr("rt_sigaction"@) == Some(13i64),
        syscalls::syscall_nr("rt_sigprocmask"@) == Some(14i64),
        syscalls::syscall_nr("restart_syscall"@) == Some(219i64),
        syscalls::syscall_nr("sigaltstack"@) == Some(131i64),
        syscalls::syscall_nr("execve"@) == Some(59i64),
        syscalls::syscall_nr("wait4"@) == Some(61i64),
        syscalls::syscall_nr("brk"@) == Some(12i64),
        syscalls::syscall_nr("mmap"@) == Some(9i64),
        syscalls::syscall_nr("munmap"@) == Some(11i64),
        syscalls::syscall_nr("mprotect"@) == Some(10i64),
        syscalls::syscall_nr("madvise"@) == Some(28i64),
        syscalls::syscall_nr("mremap"@) == Some(25i64),
        syscalls::syscall_nr("read"@) == Some(0i64),
        syscalls::syscall_nr("readv"@) == Some(19i64),
        syscalls::syscall_nr("pread64"@) == Some(17i64),
        syscalls::syscall_nr("write"@) == Some(1i64),
        syscalls::syscall_nr("writev"@) == Some(20i64),
        syscalls::syscall_nr("pwrite64"@) == Some(18i64),
        syscalls::syscall_nr("close"@) == Some(3i64),
        syscalls::syscall_nr("openat"@) == Some(257i64),
        syscalls::syscall_nr("fstat"@) == Some(5i64),
        syscalls::syscall_nr("newfstatat"@) == Some(262i64),
        syscalls::syscall_nr("lseek"@) == Some(8i64),
        syscalls::syscall_nr("ioctl"@) == Some(16i64),
        syscalls::syscall_nr("fcntl"@) == Some(72i64),
        syscalls::syscall_nr("dup"@) == Some(32i64),
        syscalls::syscall_nr("dup3"@) == Some(292i64),
        syscalls::syscall_nr("pipe2"@) == Some(293i64),
        syscalls::syscall_nr("epoll_create1"@) == Some(291i64),
        syscalls::syscall_nr("epoll_ctl"@) == Some(233i64),
        syscalls::syscall_nr("epoll_pwait"@) == Some(281i64),
        syscalls::syscall_nr("ppoll"@) == Some(271i64),
        syscalls::syscall_nr("pselect6"@) == Some(270i64),
        syscalls::syscall_nr("getdents64"@) == Some(217i64),
        syscalls::syscall_nr("getcwd"@) == Some(79i64),
        syscalls::syscall_nr("readlinkat"@) == Some(267i64),
        syscalls::syscall_nr("faccessat"@) == Some(269i64),
        syscalls::syscall_nr("faccessat2"@) == Some(439i64),
        syscalls::syscall_nr("futex"@) == Some(202i64),
        syscalls::syscall_nr("set_robust_list"@) == Some(273i64),
        syscalls::syscall_nr("get_robust_list"@) == Some(274i64),
        syscalls::syscall_nr("clone"@) == Some(56i64),
        syscalls::syscall_nr("sched_yield"@) == Some(24i64),
        syscalls::syscall_nr("sched_getaffinity"@) == Some(204i64),
        syscalls::syscall_nr("set_tid_address"@) == Some(218i64),
        syscalls::syscall_nr("rseq"@) == Some(334i64),
        syscalls::syscall_nr("clock_gettime"@) == Some(228i64),
        syscalls::syscall_nr("clock_getres"@) == Some(229i64),
        syscalls::syscall_nr("clock_nanosleep"@) == Some(230i64),
        syscalls::syscall_nr("nanosleep"@) == Some(35i64),
        syscalls::syscall_nr("gettimeofday"@) == Some(96i64),
        syscalls::syscall_nr("getuid"@) == Some(102i64),
        syscalls::syscall_nr("geteuid"@) == Some(107i64),
        syscalls::syscall_nr("getgid"@) == Some(104i64),
        syscalls::syscall_nr("getegid"@) == Some(108i64),
        syscalls::syscall_nr("getpid"@) == Some(39i64),
        syscalls::syscall_nr("gettid"@) == Some(186i64),
        syscalls::syscall_nr("getppid"@) == Some(110i64),
        syscalls::syscall_nr("getrandom"@) == Some(318i64),
        syscalls::syscall_nr("prctl"@) == Some(157i64),
        syscalls::syscall_nr("socket"@) == Some(41i64),
        syscalls::syscall_nr("connect"@) == Some(42i64),
        syscalls::syscall_nr("bind"@) == Some(49i64),
        syscalls::syscall_nr("listen"@) == Some(50i64),
        syscalls::syscall_nr("accept4"@) == Some(288i64),
        syscalls::syscall_nr("getsockname"@) == Some(51i64),
        syscalls::syscall_nr("getpeername"@) == Some(52i64),
        syscalls::syscall_nr("sendto"@) == Some(44i64),
        syscalls::syscall_nr("recvfrom"@) == Some(45i64),
        syscalls::syscall_nr("sendmsg"@) == Some(46i64),
        syscalls::syscall_nr("recvmsg"@) == Some(47i64),
        syscalls::syscall_nr("shutdown"@) == Some(48i64),
        syscalls::syscall_nr("setsockopt"@) == Some(54i64),
        syscalls::syscall_nr("getsockopt"@) == Some(55i64),
        syscalls::syscall_nr("arch_prctl"@) == Some(158i64),
{
    lemma_letters();
}

/// A number is reached by one name only, and no other name is recognized.
pub proof fn lemma_numbers_have_their_names(name: Seq<char>)
    ensures
        syscalls::syscall_nr(name) matches Some(nr) ==> {
            ||| nr == 60 && name == "exit"@
            ||| nr == 231 && name == "exit_group"@
            ||| nr == 15 && name == "rt_sigreturn"@
            ||| nr == 13 && name == "rt_sigaction"@
            ||| nr == 14 && name == "rt_sigprocmask"@
            ||| nr == 219 && name == "restart_syscall"@
            ||| nr == 131 && name == "sigaltstack"@
            ||| nr == 59 && name == "execve"@
            ||| nr == 61 && name == "wait4"@
            ||| nr == 12 && name == "brk"@
            ||| nr == 9 && name == "mmap"@
            ||| nr == 11 && name == "munmap"@
            ||| nr == 10 && name == "mprotect"@
            ||| nr == 28 && name == "madvise"@
            ||| nr == 25 && name == "mremap"@
            ||| nr == 0 && name == "read"@
            ||| nr == 19 && name == "readv"@
            ||| nr == 17 && name == "pread64"@
            ||| nr == 1 && name == "write"@
            ||| nr == 20 && name == "writev"@
            ||| nr == 18 && name == "pwrite64"@
            ||| nr == 3 && name == "close"@
            ||| nr == 257 && name == "openat"@
            ||| nr == 5 && name == "fstat"@
            ||| nr == 262 && name == "newfstatat"@
            ||| nr == 8 && name == "lseek"@
            ||| nr == 16 && name == "ioctl"@
            ||| nr == 72 && name == "fcntl"@
            ||| nr == 32 && name == "dup"@
            ||| nr == 292 && name == "dup3"@
            ||| nr == 293 && name == "pipe2"@
            ||| nr == 291 && name == "epoll_create1"@
            ||| nr == 233 && name == "epoll_ctl"@
            ||| nr == 281 && name == "epoll_pwait"@
            ||| nr == 271 && name == "ppoll"@
            ||| nr == 270 && name == "pselect6"@
            ||| nr == 217 && name == "getdents64"@
            ||| nr == 79 && name == "getcwd"@
            ||| nr == 267 && name == "readlinkat"@
            ||| nr == 269 && name == "faccessat"@
            ||| nr == 439 && name == "faccessat2"@
            ||| nr == 202 && name == "futex"@
            ||| nr == 273 && name == "set_robust_list"@
            ||| nr == 274 && name == "get_robust_list"@
            ||| nr == 56 && name == "clone"@
            ||| nr == 24 && name == "sched_yield"@
            ||| nr == 204 && name == "sched_getaffinity"@
            ||| nr == 218 && name == "set_tid_address"@
            ||| nr == 334 && name == "rseq"@
            ||| nr == 228 && name == "clock_gettime"@
            ||| nr == 229 && name == "clock_getres"@
            ||| nr == 230 && name == "clock_nanosleep"@
            ||| nr == 35 && name == "nanosleep"@
            ||| nr == 96 && name == "gettimeofday"@
            ||| nr == 102 && name == "getuid"@
            ||| nr == 107 && name == "geteuid"@
            ||| nr == 104 && name == "getgid"@
            ||| nr == 108 && name == "getegid"@
            ||| nr == 39 && name == "getpid"@
            ||| nr == 186 && name == "gettid"@
            ||| nr == 110 && name == "getppid"@
            ||| nr == 318 && name == "getrandom"@
            ||| nr == 157 && name == "prctl"@
            ||| nr == 41 && name == "socket"@
            ||| nr == 42 && name == "connect"@
            ||| nr == 49 && name == "bind"@
            ||| nr == 50 && name == "listen"@
            ||| nr == 288 && name == "accept4"@
            ||| nr == 51 && name == "getsockname"@
            ||| nr == 52 && name == "getpeername"@
            ||| nr == 44 && name == "sendto"@
            ||| nr == 45 && name == "recvfrom"@
            ||| nr == 46 && name == "sendmsg"@
            ||| nr == 47 && name == "recvmsg"@
            ||| nr == 48 && name == "shutdown"@
            ||| nr == 54 && name == "setsockopt"@
            ||| nr == 55 && name == "getsockopt"@
            ||| nr == 158 && name == "arch_prctl"@
        },
{
}

/// No two names stand for the same call.
pub proof fn lemma_names_are_distinct(a: Seq<char>, b: Seq<char>)
    requires
        syscalls::syscall_nr(a) is Some,
        syscalls::syscall_nr(a) == syscalls::syscall_nr(b),
    ensures
        a == b,
{
    lemma_numbers_have_their_names(a);
    lemma_numbers_have_their_names(b);
}

/// The mandatory-deny list, by the numbers of the kernel: a call is on it if
/// and only if its number is one of these.
pub proof fn lemma_mandatory_numbers(nr: i64)
    ensures
        syscalls::is_mandatory_denied(nr) <==> {
            ||| nr == 272 // unshare
            ||| nr == 308 // setns
            ||| nr == 165 // mount
            ||| nr == 166 // umount2
            ||| nr == 155 // pivot_root
            ||| nr == 161 // chroot
            ||| nr == 429 // move_mount
            ||| nr == 430 // fsopen
            ||| nr == 431 // fsconfig
            ||| nr == 432 // fsmount
            ||| nr == 433 // fspick
            ||| nr == 428 // open_tree
            ||| nr == 442 // mount_setattr
            ||| nr == 321 // bpf
            ||| nr == 250 // keyctl
            ||| nr == 248 // add_key
            ||| nr == 249 // request_key
            ||| nr == 298 // perf_event_open
            ||| nr == 323 // userfaultfd
            ||| nr == 425 // io_uring_setup
            ||| nr == 426 // io_uring_enter
            ||| nr == 427 // io_uring_register
            ||| nr == 175 // init_module
            ||| nr == 313 // finit_module
            ||| nr == 176 // delete_module
            ||| nr == 169 // reboot
            ||| nr == 246 // kexec_load
            ||| nr == 320 // kexec_file_load
            ||| nr == 167 // swapon
            ||| nr == 168 // swapoff
            ||| nr == 139 // sysfs
            ||| nr == 103 // syslog
            ||| nr == 172 // iopl
            ||| nr == 173 // ioperm
            ||| nr == 153 // vhangup
            ||| nr == 135 // personality
            ||| nr == 163 // acct
            ||| nr == 170 // sethostname
            ||| nr == 171 // setdomainname
            ||| nr == 300 // fanotify_init
            ||| nr == 179 // quotactl
            ||| nr == 126 // capset
            ||| nr == 101 // ptrace
            ||| nr == 310 // process_vm_readv
            ||| nr == 311 // process_vm_writev
            ||| nr == 438 // pidfd_getfd
            ||| nr == 303 // name_to_handle_at
            ||| nr == 304 // open_by_handle_at
            ||| nr == 227 // clock_settime
            ||| nr == 305 // clock_adjtime
            ||| nr == 159 // adjtimex
            ||| nr == 164 // settimeofday
            ||| nr == 238 // set_mempolicy
            ||| nr == 256 // migrate_pages
            ||| nr == 279 // move_pages
            ||| nr == 237 // mbind
            ||| nr == 312 // kcmp
            ||| nr == 278 // vmsplice
            ||| nr == 251 // ioprio_set
            ||| nr == 154 // modify_ldt
        },
{
}

/// The calls that a process needs to exit, by the numbers of the kernel.
pub proof fn lemma_survival_numbers(nr: i64)
    ensures
        syscalls::is_survival(nr) <==> {
            ||| nr == 60 // exit
            ||| nr == 231 // exit_group
            ||| nr == 15 // rt_sigreturn
            ||| nr == 219 // restart_syscall
        },
{
}

} // verus!
