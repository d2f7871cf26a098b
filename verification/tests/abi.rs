//! The kernel constants of the library against those of `libc`.

use sandbox::abi;

#[test]
fn syscall_numbers_match_the_platform() {
    assert_eq!(abi::SYS_READ, libc::SYS_read);
    assert_eq!(abi::SYS_WRITE, libc::SYS_write);
    assert_eq!(abi::SYS_CLOSE, libc::SYS_close);
    assert_eq!(abi::SYS_FSTAT, libc::SYS_fstat);
    assert_eq!(abi::SYS_LSEEK, libc::SYS_lseek);
    assert_eq!(abi::SYS_MMAP, libc::SYS_mmap);
    assert_eq!(abi::SYS_MPROTECT, libc::SYS_mprotect);
    assert_eq!(abi::SYS_MUNMAP, libc::SYS_munmap);
    assert_eq!(abi::SYS_BRK, libc::SYS_brk);
    assert_eq!(abi::SYS_RT_SIGACTION, libc::SYS_rt_sigaction);
    assert_eq!(abi::SYS_RT_SIGPROCMASK, libc::SYS_rt_sigprocmask);
    assert_eq!(abi::SYS_RT_SIGRETURN, libc::SYS_rt_sigreturn);
    assert_eq!(abi::SYS_IOCTL, libc::SYS_ioctl);
    assert_eq!(abi::SYS_PREAD64, libc::SYS_pread64);
    assert_eq!(abi::SYS_PWRITE64, libc::SYS_pwrite64);
    assert_eq!(abi::SYS_READV, libc::SYS_readv);
    assert_eq!(abi::SYS_WRITEV, libc::SYS_writev);
    assert_eq!(abi::SYS_SCHED_YIELD, libc::SYS_sched_yield);
    assert_eq!(abi::SYS_MREMAP, libc::SYS_mremap);
    assert_eq!(abi::SYS_MADVISE, libc::SYS_madvise);
    assert_eq!(abi::SYS_DUP, libc::SYS_dup);
    assert_eq!(abi::SYS_NANOSLEEP, libc::SYS_nanosleep);
    assert_eq!(abi::SYS_GETPID, libc::SYS_getpid);
    assert_eq!(abi::SYS_SOCKET, libc::SYS_socket);
    assert_eq!(abi::SYS_CONNECT, libc::SYS_connect);
    assert_eq!(abi::SYS_SENDTO, libc::SYS_sendto);
    assert_eq!(abi::SYS_RECVFROM, libc::SYS_recvfrom);
    assert_eq!(abi::SYS_SENDMSG, libc::SYS_sendmsg);
    assert_eq!(abi::SYS_RECVMSG, libc::SYS_recvmsg);
    assert_eq!(abi::SYS_SHUTDOWN, libc::SYS_shutdown);
    assert_eq!(abi::SYS_BIND, libc::SYS_bind);
    assert_eq!(abi::SYS_LISTEN, libc::SYS_listen);
    assert_eq!(abi::SYS_GETSOCKNAME, libc::SYS_getsockname);
    assert_eq!(abi::SYS_GETPEERNAME, libc::SYS_getpeername);
    assert_eq!(abi::SYS_SETSOCKOPT, libc::SYS_setsockopt);
    assert_eq!(abi::SYS_GETSOCKOPT, libc::SYS_getsockopt);
    assert_eq!(abi::SYS_CLONE, libc::SYS_clone);
    assert_eq!(abi::SYS_EXECVE, libc::SYS_execve);
    assert_eq!(abi::SYS_EXIT, libc::SYS_exit);
    assert_eq!(abi::SYS_WAIT4, libc::SYS_wait4);
    assert_eq!(abi::SYS_FCNTL, libc::SYS_fcntl);
    assert_eq!(abi::SYS_GETCWD, libc::SYS_getcwd);
    assert_eq!(abi::SYS_GETTIMEOFDAY, libc::SYS_gettimeofday);
    assert_eq!(abi::SYS_PTRACE, libc::SYS_ptrace);
    assert_eq!(abi::SYS_GETUID, libc::SYS_getuid);
    assert_eq!(abi::SYS_SYSLOG, libc::SYS_syslog);
    assert_eq!(abi::SYS_GETGID, libc::SYS_getgid);
    assert_eq!(abi::SYS_GETEUID, libc::SYS_geteuid);
    assert_eq!(abi::SYS_GETEGID, libc::SYS_getegid);
    assert_eq!(abi::SYS_GETPPID, libc::SYS_getppid);
    assert_eq!(abi::SYS_CAPSET, libc::SYS_capset);
    assert_eq!(abi::SYS_SIGALTSTACK, libc::SYS_sigaltstack);
    assert_eq!(abi::SYS_PERSONALITY, libc::SYS_personality);
    assert_eq!(abi::SYS_SYSFS, libc::SYS_sysfs);
    assert_eq!(abi::SYS_VHANGUP, libc::SYS_vhangup);
    assert_eq!(abi::SYS_MODIFY_LDT, libc::SYS_modify_ldt);
    assert_eq!(abi::SYS_PIVOT_ROOT, libc::SYS_pivot_root);
    assert_eq!(abi::SYS_PRCTL, libc::SYS_prctl);
    assert_eq!(abi::SYS_ARCH_PRCTL, libc::SYS_arch_prctl);
    assert_eq!(abi::SYS_ADJTIMEX, libc::SYS_adjtimex);
    assert_eq!(abi::SYS_CHROOT, libc::SYS_chroot);
    assert_eq!(abi::SYS_ACCT, libc::SYS_acct);
    assert_eq!(abi::SYS_SETTIMEOFDAY, libc::SYS_settimeofday);
    assert_eq!(abi::SYS_MOUNT, libc::SYS_mount);
    assert_eq!(abi::SYS_UMOUNT2, libc::SYS_umount2);
    assert_eq!(abi::SYS_SWAPON, libc::SYS_swapon);
    assert_eq!(abi::SYS_SWAPOFF, libc::SYS_swapoff);
    assert_eq!(abi::SYS_REBOOT, libc::SYS_reboot);
    assert_eq!(abi::SYS_SETHOSTNAME, libc::SYS_sethostname);
    assert_eq!(abi::SYS_SETDOMAINNAME, libc::SYS_setdomainname);
    assert_eq!(abi::SYS_IOPL, libc::SYS_iopl);
    assert_eq!(abi::SYS_IOPERM, libc::SYS_ioperm);
    assert_eq!(abi::SYS_INIT_MODULE, libc::SYS_init_module);
    assert_eq!(abi::SYS_DELETE_MODULE, libc::SYS_delete_module);
    assert_eq!(abi::SYS_QUOTACTL, libc::SYS_quotactl);
    assert_eq!(abi::SYS_GETTID, libc::SYS_gettid);
    assert_eq!(abi::SYS_FUTEX, libc::SYS_futex);
    assert_eq!(abi::SYS_SCHED_GETAFFINITY, libc::SYS_sched_getaffinity);
    assert_eq!(abi::SYS_GETDENTS64, libc::SYS_getdents64);
    assert_eq!(abi::SYS_SET_TID_ADDRESS, libc::SYS_set_tid_address);
    assert_eq!(abi::SYS_RESTART_SYSCALL, libc::SYS_restart_syscall);
    assert_eq!(abi::SYS_CLOCK_SETTIME, libc::SYS_clock_settime);
    assert_eq!(abi::SYS_CLOCK_GETTIME, libc::SYS_clock_gettime);
    assert_eq!(abi::SYS_CLOCK_GETRES, libc::SYS_clock_getres);
    assert_eq!(abi::SYS_CLOCK_NANOSLEEP, libc::SYS_clock_nanosleep);
    assert_eq!(abi::SYS_EXIT_GROUP, libc::SYS_exit_group);
    assert_eq!(abi::SYS_EPOLL_CTL, libc::SYS_epoll_ctl);
    assert_eq!(abi::SYS_MBIND, libc::SYS_mbind);
    assert_eq!(abi::SYS_SET_MEMPOLICY, libc::SYS_set_mempolicy);
    assert_eq!(abi::SYS_KEXEC_LOAD, libc::SYS_kexec_load);
    assert_eq!(abi::SYS_ADD_KEY, libc::SYS_add_key);
    assert_eq!(abi::SYS_REQUEST_KEY, libc::SYS_request_key);
    assert_eq!(abi::SYS_KEYCTL, libc::SYS_keyctl);
    assert_eq!(abi::SYS_IOPRIO_SET, libc::SYS_ioprio_set);
    assert_eq!(abi::SYS_MIGRATE_PAGES, libc::SYS_migrate_pages);
    assert_eq!(abi::SYS_OPENAT, libc::SYS_openat);
    assert_eq!(abi::SYS_NEWFSTATAT, libc::SYS_newfstatat);
    assert_eq!(abi::SYS_READLINKAT, libc::SYS_readlinkat);
    assert_eq!(abi::SYS_FACCESSAT, libc::SYS_faccessat);
    assert_eq!(abi::SYS_PSELECT6, libc::SYS_pselect6);
    assert_eq!(abi::SYS_PPOLL, libc::SYS_ppoll);
    assert_eq!(abi::SYS_UNSHARE, libc::SYS_unshare);
    assert_eq!(abi::SYS_SET_ROBUST_LIST, libc::SYS_set_robust_list);
    assert_eq!(abi::SYS_GET_ROBUST_LIST, libc::SYS_get_robust_list);
    assert_eq!(abi::SYS_VMSPLICE, libc::SYS_vmsplice);
    assert_eq!(abi::SYS_MOVE_PAGES, libc::SYS_move_pages);
    assert_eq!(abi::SYS_EPOLL_PWAIT, libc::SYS_epoll_pwait);
    assert_eq!(abi::SYS_ACCEPT4, libc::SYS_accept4);
    assert_eq!(abi::SYS_EPOLL_CREATE1, libc::SYS_epoll_create1);
    assert_eq!(abi::SYS_DUP3, libc::SYS_dup3);
    assert_eq!(abi::SYS_PIPE2, libc::SYS_pipe2);
    assert_eq!(abi::SYS_PERF_EVENT_OPEN, libc::SYS_perf_event_open);
    assert_eq!(abi::SYS_FANOTIFY_INIT, libc::SYS_fanotify_init);
    assert_eq!(abi::SYS_NAME_TO_HANDLE_AT, libc::SYS_name_to_handle_at);
    assert_eq!(abi::SYS_OPEN_BY_HANDLE_AT, libc::SYS_open_by_handle_at);
    assert_eq!(abi::SYS_CLOCK_ADJTIME, libc::SYS_clock_adjtime);
    assert_eq!(abi::SYS_SETNS, libc::SYS_setns);
    assert_eq!(abi::SYS_PROCESS_VM_READV, libc::SYS_process_vm_readv);
    assert_eq!(abi::SYS_PROCESS_VM_WRITEV, libc::SYS_process_vm_writev);
    assert_eq!(abi::SYS_KCMP, libc::SYS_kcmp);
    assert_eq!(abi::SYS_FINIT_MODULE, libc::SYS_finit_module);
    assert_eq!(abi::SYS_GETRANDOM, libc::SYS_getrandom);
    assert_eq!(abi::SYS_KEXEC_FILE_LOAD, libc::SYS_kexec_file_load);
    assert_eq!(abi::SYS_BPF, libc::SYS_bpf);
    assert_eq!(abi::SYS_USERFAULTFD, libc::SYS_userfaultfd);
    assert_eq!(abi::SYS_RSEQ, libc::SYS_rseq);
    assert_eq!(abi::SYS_IO_URING_SETUP, libc::SYS_io_uring_setup);
    assert_eq!(abi::SYS_IO_URING_ENTER, libc::SYS_io_uring_enter);
    assert_eq!(abi::SYS_IO_URING_REGISTER, libc::SYS_io_uring_register);
    assert_eq!(abi::SYS_OPEN_TREE, libc::SYS_open_tree);
    assert_eq!(abi::SYS_MOVE_MOUNT, libc::SYS_move_mount);
    assert_eq!(abi::SYS_FSOPEN, libc::SYS_fsopen);
    assert_eq!(abi::SYS_FSCONFIG, libc::SYS_fsconfig);
    assert_eq!(abi::SYS_FSMOUNT, libc::SYS_fsmount);
    assert_eq!(abi::SYS_FSPICK, libc::SYS_fspick);
    assert_eq!(abi::SYS_CLONE3, libc::SYS_clone3);
    assert_eq!(abi::SYS_PIDFD_GETFD, libc::SYS_pidfd_getfd);
    assert_eq!(abi::SYS_FACCESSAT2, libc::SYS_faccessat2);
    assert_eq!(abi::SYS_MOUNT_SETATTR, libc::SYS_mount_setattr);
}

#[test]
fn flags_match_the_platform() {
    assert_eq!(abi::CLONE_NEWNS, libc::CLONE_NEWNS as u64);
    assert_eq!(abi::CLONE_NEWUSER, libc::CLONE_NEWUSER as u64);
    assert_eq!(abi::CLONE_NEWNET, libc::CLONE_NEWNET as u64);
    assert_eq!(abi::MS_RDONLY, libc::MS_RDONLY);
    assert_eq!(abi::MS_NOSUID, libc::MS_NOSUID);
    assert_eq!(abi::MS_NODEV, libc::MS_NODEV);
    assert_eq!(abi::MS_NOEXEC, libc::MS_NOEXEC);
    assert_eq!(abi::MS_REMOUNT, libc::MS_REMOUNT);
    assert_eq!(abi::MS_BIND, libc::MS_BIND);
    assert_eq!(abi::MS_REC, libc::MS_REC);
    assert_eq!(abi::MS_PRIVATE, libc::MS_PRIVATE);
    assert_eq!(abi::MS_SLAVE, libc::MS_SLAVE);
    assert_eq!(abi::MNT_DETACH, libc::MNT_DETACH);
    assert_eq!(abi::TIOCSTI, libc::TIOCSTI);
    assert_eq!(abi::TIOCLINUX, 0x541C);
    assert_eq!(abi::PR_SET_PDEATHSIG, libc::PR_SET_PDEATHSIG);
    assert_eq!(abi::PR_SET_DUMPABLE, libc::PR_SET_DUMPABLE);
    assert_eq!(abi::PR_SET_SECUREBITS, libc::PR_SET_SECUREBITS);
    assert_eq!(abi::PR_SET_MM, libc::PR_SET_MM as u64);
    assert_eq!(abi::PR_SET_NO_NEW_PRIVS, libc::PR_SET_NO_NEW_PRIVS);
    assert_eq!(abi::SIGKILL, libc::SIGKILL as u64);
    assert_eq!(abi::AF_INET, libc::AF_INET);
    assert_eq!(abi::AF_PACKET, libc::AF_PACKET as u64);
    assert_eq!(abi::SOCK_DGRAM, libc::SOCK_DGRAM);
    assert_eq!(abi::IFF_UP, libc::IFF_UP as i16);
    assert_eq!(abi::EPERM, libc::EPERM as u32);
    assert_eq!(abi::ENOSYS, libc::ENOSYS as u32);
}
