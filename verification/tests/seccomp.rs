//! The seccomp filters, as the kernel would run them.

use sandbox::abi;
use sandbox::error::{Cause, CauseKind, FilterError};
use sandbox::procedure::Op;
use sandbox::unix::filter::{Arch, FilterAction, Instruction};
use sandbox::unix::seccomp::{
    apply_allowlist, apply_denylist, apply_filter, build_allowlist_filter,
    build_clone3_enosys_filter, build_denylist_filter, clone_deny_rules, ioctl_deny_rules,
    prctl_deny_rules, resolve_allowances, resolve_denials, socket_deny_rules, target_arch,
    CLONE_NEW_BITS, CLONE_NEW_MASK,
};
use sandbox::unix::syscalls::{
    is_mandatory_deny_syscall, is_survival_syscall, mandatory_deny_syscall_nrs, nr_for_name,
    survival_syscall_nrs,
};

const ALLOW: u32 = 0x7fff_0000;
const KILL: u32 = 0x8000_0000;
const EPERM: u32 = 0x0005_0001;
const ENOSYS: u32 = 0x0005_0026;

const DENY: FilterAction = FilterAction::Errno(abi::EPERM);

fn word(arch: u32, nr: u32, args: &[u64; 6], offset: u32) -> u32 {
    let mut data = Vec::new();
    data.extend_from_slice(&nr.to_le_bytes());
    data.extend_from_slice(&arch.to_le_bytes());
    data.extend_from_slice(&0u64.to_le_bytes());
    for arg in args {
        data.extend_from_slice(&arg.to_le_bytes());
    }
    let at = offset as usize;
    u32::from_le_bytes([data[at], data[at + 1], data[at + 2], data[at + 3]])
}

fn run_on(program: &[Instruction], arch: u32, nr: i64, args: &[u64; 6]) -> u32 {
    let mut acc: u32 = 0;
    let mut pc: usize = 0;
    loop {
        let at = program[pc];
        pc += 1;
        match at.code {
            0x20 => acc = word(arch, nr as u32, args, at.k),
            0x54 => acc &= at.k,
            0x05 => pc += at.k as usize,
            0x15 => pc += if acc == at.k { at.jt } else { at.jf } as usize,
            0x06 => return at.k,
            code => panic!("unexpected operation {code:#x}"),
        }
    }
}

fn run(program: &[Instruction], nr: i64, args: &[u64; 6]) -> u32 {
    run_on(program, 0xC000_003E, nr, args)
}

fn first(value: u64) -> [u64; 6] {
    [value, 0, 0, 0, 0, 0]
}

fn second(value: u64) -> [u64; 6] {
    [0, value, 0, 0, 0, 0]
}

fn programs(ops: Vec<Op>) -> Vec<Vec<Instruction>> {
    ops.into_iter()
        .map(|op| match op {
            Op::InstallFilter(program) => program,
            other => panic!("unexpected operation {other:?}"),
        })
        .collect()
}

#[test]
fn mandatory_deny_disjoint_from_survival() {
    let denied = mandatory_deny_syscall_nrs();
    assert!(!denied.is_empty());
    for nr in survival_syscall_nrs() {
        assert!(
            !denied.contains(&nr),
            "survival syscall {nr} must not be on the mandatory-deny list",
        );
    }
}

#[test]
fn clone3_enosys_filter_builds() {
    let bpf = build_clone3_enosys_filter("x86_64").expect("should build clone3 ENOSYS filter");
    assert!(!bpf.is_empty());
}

#[test]
fn argument_filter_rules_build() {
    ioctl_deny_rules().expect("ioctl rules");
    clone_deny_rules().expect("clone rules");
    prctl_deny_rules().expect("prctl rules");
    socket_deny_rules().expect("socket rules");
}

#[test]
fn nr_for_name_resolves_known_and_rejects_unknown() {
    assert_eq!(nr_for_name("read"), Some(libc::SYS_read));
    assert_eq!(nr_for_name("openat"), Some(libc::SYS_openat));
    assert_eq!(nr_for_name("exit_group"), Some(libc::SYS_exit_group));
    assert_eq!(nr_for_name("definitely_not_a_syscall"), None);
    // Legacy spellings are intentionally not recognized.
    assert_eq!(nr_for_name("open"), None);
    assert_eq!(nr_for_name("poll"), None);
}

#[test]
fn denylist_filter_builds_with_extras() {
    let nrs = &[libc::SYS_execve, libc::SYS_connect];
    let bpf = build_denylist_filter(nrs, FilterAction::Errno(libc::EPERM as u32), "x86_64")
        .expect("should build denylist filter");
    assert!(!bpf.is_empty());
}

#[test]
fn the_denylist_blocks_the_baseline_and_nothing_else() {
    let bpf = build_denylist_filter(&[], DENY, "x86_64").unwrap();
    let denied = mandatory_deny_syscall_nrs();
    for nr in 0..460 {
        let expected = if denied.contains(&nr) { EPERM } else { ALLOW };
        assert_eq!(run(&bpf, nr, &[0; 6]), expected, "{nr}");
        assert_eq!(is_mandatory_deny_syscall(nr), denied.contains(&nr));
    }
    for nr in [
        libc::SYS_mount,
        libc::SYS_unshare,
        libc::SYS_pivot_root,
        libc::SYS_bpf,
        libc::SYS_ptrace,
    ] {
        assert_eq!(run(&bpf, nr, &[u64::MAX; 6]), EPERM);
    }
}

#[test]
fn a_release_denylist_kills() {
    let bpf = build_denylist_filter(&[], FilterAction::KillProcess, "x86_64").unwrap();
    assert_eq!(run(&bpf, libc::SYS_mount, &[0; 6]), KILL);
    assert_eq!(run(&bpf, libc::SYS_read, &[0; 6]), ALLOW);
}

#[test]
fn a_foreign_architecture_is_killed() {
    let bpf = build_denylist_filter(&[], DENY, "x86_64").unwrap();
    assert_eq!(run_on(&bpf, 0x4000_0003, libc::SYS_read, &[0; 6]), KILL);
}

#[test]
fn guarded_calls_are_blocked_in_their_dangerous_cases() {
    let bpf = build_denylist_filter(&[], DENY, "x86_64").unwrap();
    for (request, expected) in [
        (abi::TIOCSTI, EPERM),
        (abi::TIOCLINUX, EPERM),
        (abi::TIOCSTI | 0xdead_beef_0000_0000, EPERM),
        (0x5401, ALLOW),
        (0, ALLOW),
    ] {
        assert_eq!(run(&bpf, libc::SYS_ioctl, &second(request)), expected);
    }
    assert_eq!(CLONE_NEW_BITS.iter().fold(0, |a, b| a | b), CLONE_NEW_MASK);
    for bit in CLONE_NEW_BITS {
        assert_eq!(run(&bpf, libc::SYS_clone, &first(bit)), EPERM);
        assert_eq!(run(&bpf, libc::SYS_clone, &first(bit | 0x11)), EPERM);
    }
    // What a thread is created with.
    assert_eq!(run(&bpf, libc::SYS_clone, &first(0x003d_0f00)), ALLOW);
    assert_eq!(
        run(&bpf, libc::SYS_prctl, &first(abi::PR_SET_MM | 1 << 32)),
        EPERM
    );
    assert_eq!(run(&bpf, libc::SYS_prctl, &first(15)), ALLOW);
    assert_eq!(run(&bpf, libc::SYS_socket, &first(17)), EPERM);
    assert_eq!(run(&bpf, libc::SYS_socket, &first(1)), ALLOW);
}

#[test]
fn an_extra_overrides_a_guard_with_a_full_denial() {
    let bpf = build_denylist_filter(&[libc::SYS_socket, libc::SYS_execve], DENY, "x86_64").unwrap();
    assert_eq!(run(&bpf, libc::SYS_socket, &first(1)), EPERM);
    assert_eq!(run(&bpf, libc::SYS_execve, &[0; 6]), EPERM);
    assert_eq!(run(&bpf, libc::SYS_connect, &[0; 6]), ALLOW);
}

#[test]
fn the_overlay_hides_clone3() {
    let bpf = build_clone3_enosys_filter("x86_64").unwrap();
    assert_eq!(run(&bpf, libc::SYS_clone3, &[0; 6]), ENOSYS);
    assert_eq!(run(&bpf, libc::SYS_clone3, &[u64::MAX; 6]), ENOSYS);
    assert_eq!(run(&bpf, libc::SYS_clone, &[0; 6]), ALLOW);
    assert_eq!(run(&bpf, libc::SYS_mount, &[0; 6]), ALLOW);
}

#[test]
fn the_allowlist_lets_through_only_what_is_listed() {
    let allowed = [
        libc::SYS_read,
        libc::SYS_mount,
        libc::SYS_clone,
        libc::SYS_ioctl,
        libc::SYS_prctl,
        libc::SYS_socket,
    ];
    let bpf = build_allowlist_filter(&allowed, DENY, "x86_64").unwrap();
    assert_eq!(run(&bpf, libc::SYS_read, &[7; 6]), ALLOW);
    assert_eq!(run(&bpf, libc::SYS_write, &[0; 6]), EPERM);
    // The baseline stays forbidden.
    assert_eq!(run(&bpf, libc::SYS_mount, &[0; 6]), EPERM);
    // The guarded calls stay restricted.
    assert_eq!(run(&bpf, libc::SYS_clone, &first(0x003d_0f00)), ALLOW);
    assert_eq!(run(&bpf, libc::SYS_clone, &first(0x1000_0000)), EPERM);
    assert_eq!(run(&bpf, libc::SYS_ioctl, &second(0x5401)), ALLOW);
    assert_eq!(run(&bpf, libc::SYS_ioctl, &second(abi::TIOCSTI)), EPERM);
    assert_eq!(run(&bpf, libc::SYS_ioctl, &second(abi::TIOCLINUX)), EPERM);
    assert_eq!(run(&bpf, libc::SYS_prctl, &first(abi::PR_SET_MM)), EPERM);
    assert_eq!(run(&bpf, libc::SYS_prctl, &first(15)), ALLOW);
    assert_eq!(run(&bpf, libc::SYS_socket, &first(17)), EPERM);
    assert_eq!(run(&bpf, libc::SYS_socket, &first(2)), ALLOW);
    // The overlay answers for this one.
    assert_eq!(run(&bpf, libc::SYS_clone3, &[0; 6]), ALLOW);
}

#[test]
fn an_allowlist_that_allows_on_denial_cannot_be_built() {
    assert!(matches!(
        build_allowlist_filter(&[], FilterAction::Allow, "x86_64"),
        Err(FilterError::Creation)
    ));
    assert!(matches!(
        build_denylist_filter(&[], FilterAction::Allow, "x86_64"),
        Err(FilterError::Creation)
    ));
}

#[test]
fn other_architectures_are_refused() {
    assert_eq!(target_arch("x86_64").unwrap(), Arch::X86_64);
    assert_eq!(target_arch("X86_64").unwrap(), Arch::X86_64);
    for arch in ["aarch64", "riscv64"] {
        assert!(matches!(
            target_arch(arch),
            Err(FilterError::UnnumberedArch(name)) if name == arch
        ));
        assert!(matches!(
            build_clone3_enosys_filter(arch),
            Err(FilterError::UnnumberedArch(_))
        ));
    }
    for arch in ["arm", "x86", "é", ""] {
        assert!(matches!(
            target_arch(arch),
            Err(FilterError::UnsupportedArch(name)) if name == arch
        ));
        assert!(matches!(
            build_clone3_enosys_filter(arch),
            Err(FilterError::UnsupportedArch(_))
        ));
    }
}

#[test]
fn denials_are_resolved_in_order() {
    assert_eq!(
        resolve_denials(&["execve", "socket", "connect"]).unwrap(),
        vec![libc::SYS_execve, libc::SYS_socket, libc::SYS_connect]
    );
    assert!(resolve_denials(&[]).unwrap().is_empty());
    assert!(matches!(
        resolve_denials(&["socket", "nonsense", "exit_group"]),
        Err(FilterError::UnknownSyscall(name)) if name == "nonsense"
    ));
}

#[test]
fn survival_calls_cannot_be_denied() {
    for name in ["exit", "exit_group", "rt_sigreturn"] {
        let nr = nr_for_name(name).unwrap();
        assert!(is_survival_syscall(nr));
        assert!(matches!(
            resolve_denials(&[name]),
            Err(FilterError::SurvivalSyscall(refused)) if refused == name
        ));
        assert_eq!(resolve_allowances(&[name]).unwrap(), vec![nr]);
    }
    assert!(!is_survival_syscall(libc::SYS_read));
}

#[test]
fn allowances_must_be_known() {
    assert!(matches!(
        resolve_allowances(&["read", "kill"]),
        Err(FilterError::UnknownAllowance(name)) if name == "kill"
    ));
}

#[test]
fn applying_a_denylist_installs_the_filter_then_the_overlay() {
    let stack = programs(apply_denylist(&["execve"], DENY, "x86_64"));
    assert_eq!(stack.len(), 2);
    assert_eq!(run(&stack[0], libc::SYS_execve, &[0; 6]), EPERM);
    assert_eq!(run(&stack[0], libc::SYS_mount, &[0; 6]), EPERM);
    assert_eq!(run(&stack[1], libc::SYS_clone3, &[0; 6]), ENOSYS);
}

#[test]
fn applying_an_allowlist_installs_the_overlay_first() {
    let stack = programs(apply_allowlist(&["read", "exit"], DENY, "x86_64"));
    assert_eq!(stack.len(), 2);
    assert_eq!(run(&stack[0], libc::SYS_clone3, &[0; 6]), ENOSYS);
    assert_eq!(run(&stack[0], libc::SYS_write, &[0; 6]), ALLOW);
    assert_eq!(run(&stack[1], libc::SYS_read, &[0; 6]), ALLOW);
    assert_eq!(run(&stack[1], libc::SYS_write, &[0; 6]), EPERM);
}

#[test]
fn a_filter_that_cannot_be_had_is_refused_once() {
    assert!(matches!(
        apply_denylist(&["tgkill"], DENY, "x86_64").as_slice(),
        [Op::Refuse(Cause::Filter(FilterError::UnknownSyscall(name)))] if name == "tgkill"
    ));
    assert!(matches!(
        apply_allowlist(&["tgkill"], DENY, "x86_64").as_slice(),
        [Op::Refuse(Cause::Filter(FilterError::UnknownAllowance(name)))] if name == "tgkill"
    ));
    for ops in [
        apply_denylist(&[], DENY, "aarch64"),
        apply_allowlist(&[], DENY, "aarch64"),
    ] {
        assert!(matches!(
            ops.as_slice(),
            [Op::Refuse(Cause::Filter(FilterError::UnnumberedArch(name)))] if name == "aarch64"
        ));
    }
}

#[test]
fn installing_hands_the_program_on() {
    let bpf = build_clone3_enosys_filter("x86_64").unwrap();
    let copy = bpf.clone();
    assert!(matches!(apply_filter(bpf), Op::InstallFilter(program) if program == copy));
}

#[test]
fn a_stack_takes_the_stricter_verdict() {
    // The kernel runs every filter and takes the most restrictive answer.
    let stricter = |a: u32, b: u32| if a == ALLOW { b } else { a };
    let base = build_denylist_filter(&[], DENY, "x86_64").unwrap();
    let more = build_denylist_filter(&[libc::SYS_connect], DENY, "x86_64").unwrap();
    for nr in 0..460 {
        let alone = run(&base, nr, &[0; 6]);
        let both = stricter(alone, run(&more, nr, &[0; 6]));
        if alone != ALLOW {
            assert_ne!(both, ALLOW);
        }
        assert_eq!(both != ALLOW, alone != ALLOW || nr == libc::SYS_connect);
    }
}

#[test]
fn no_recognized_name_is_on_the_baseline() {
    for name in ["mount", "unshare", "bpf", "ptrace", "clone3", "kexec_load"] {
        assert_eq!(nr_for_name(name), None);
    }
    for name in ["read", "clone", "ioctl", "prctl", "socket", "arch_prctl"] {
        assert!(!is_mandatory_deny_syscall(nr_for_name(name).unwrap()));
    }
}

#[test]
fn a_denied_worker_can_still_exit() {
    let stack = programs(apply_denylist(&["execve", "socket"], DENY, "x86_64"));
    for nr in survival_syscall_nrs() {
        for program in &stack {
            assert_eq!(run(program, nr, &[0; 6]), ALLOW);
        }
    }
}

#[test]
fn denying_a_survival_call_installs_nothing_and_says_why() {
    let ops = apply_denylist(&["execve", "exit_group"], DENY, "x86_64");
    let [Op::Refuse(cause)] = ops.as_slice() else {
        panic!("unexpected operations {ops:?}");
    };
    assert_eq!(cause.kind(), CauseKind::Other);
    assert_eq!(
        cause.message().unwrap(),
        "syscall \"exit_group\" is required for a process to exit and cannot be denied"
    );
}

#[test]
fn filter_errors_have_messages() {
    let name = || "no\"pe".to_string();
    for (error, text) in [
        (
            FilterError::UnsupportedArch("arm".to_string()),
            format!(
                "unsupported arch for seccomp: {:?}",
                seccompiler::TargetArch::try_from("arm").unwrap_err()
            ),
        ),
        (
            FilterError::UnnumberedArch("aarch64".to_string()),
            "no syscall numbers for arch: \"aarch64\"".to_string(),
        ),
        (
            FilterError::UnknownSyscall(name()),
            format!("unknown syscall name in denylist: {:?}", name()),
        ),
        (
            FilterError::UnknownSyscall("kill".to_string()),
            "unknown syscall name in denylist: \"kill\"".to_string(),
        ),
        (
            FilterError::UnknownAllowance("kill".to_string()),
            "unknown syscall name in allowlist: \"kill\"".to_string(),
        ),
        (
            FilterError::Condition,
            format!(
                "seccomp condition: {}",
                seccompiler::BackendError::InvalidArgumentNumber
            ),
        ),
        (
            FilterError::Rule,
            format!("seccomp rule: {}", seccompiler::BackendError::EmptyRule),
        ),
        (
            FilterError::Creation,
            format!(
                "seccomp filter creation failed: {}",
                seccompiler::BackendError::IdenticalActions
            ),
        ),
    ] {
        assert_eq!(error.message(), text);
        assert_eq!(error.duplicate().message(), text);
    }
}

#[test]
fn a_filter_beyond_the_kernel_limit_is_refused() {
    let nrs: Vec<i64> = (1000..2000).collect();
    let error = build_denylist_filter(&nrs, DENY, "x86_64").unwrap_err();
    assert!(error
        .message()
        .starts_with("seccomp BPF compilation failed: The seccomp filter contains too many"));
    assert!(matches!(error, FilterError::Compilation(_)));
}

#[test]
fn a_policy_may_repeat_names_without_end() {
    let names = vec!["socket"; 5000];
    assert_eq!(programs(apply_denylist(&names, DENY, "x86_64")).len(), 2);
    assert_eq!(programs(apply_allowlist(&names, DENY, "x86_64")).len(), 2);
}

#[test]
fn every_action_has_its_word() {
    for (action, word) in [
        (FilterAction::Errno(0x1_0016), 0x0005_0016),
        (FilterAction::KillThread, libc::SECCOMP_RET_KILL_THREAD),
        (FilterAction::KillProcess, libc::SECCOMP_RET_KILL_PROCESS),
        (FilterAction::Log, libc::SECCOMP_RET_LOG),
        (FilterAction::Trace(7), libc::SECCOMP_RET_TRACE | 7),
        (FilterAction::Trap, libc::SECCOMP_RET_TRAP),
    ] {
        let bpf = build_denylist_filter(&[], action, "x86_64").unwrap();
        assert_eq!(run(&bpf, libc::SYS_mount, &[0; 6]), word);
        assert_eq!(run(&bpf, libc::SYS_read, &[0; 6]), ALLOW);
    }
}
