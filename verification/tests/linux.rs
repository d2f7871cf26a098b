//! The Linux procedures and how a walk through them ends.

use sandbox::error::{Cause, CauseKind, Error, FilterError};
use sandbox::host::sandbox_disabled;
use sandbox::linux::{mount_flags_for_access, seccomp_deny_action};
use sandbox::procedure::{CapSet, Failure, OnFailure, Op, Outcome, Session, Step};
use sandbox::profile::Access;
use sandbox::unix::filter::FilterAction;
use sandbox::unix::hardening::get_no_new_privs;
use sandbox::unix::mount_namespace::{
    bind_mount, mount_proc, mount_tmpfs, path_to_cstring, pivot_root, set_root_propagation, umount,
};
use sandbox::unix::SyscallResult;
use sandbox::{apply, profiles, tighten, Host, Network, Platform, Profile, Restrictions, Syscalls};

const LINUX: Host = Host {
    platform: Platform::Linux,
    debug_build: false,
    disable_requested: false,
    arch: "x86_64",
};

fn text(path: &[u8]) -> String {
    String::from_utf8_lossy(path).into_owned()
}

fn describe(op: &Op) -> String {
    match op {
        Op::Mount {
            source,
            target,
            fstype,
            flags,
        } => format!(
            "mount {} {} {} {flags:#x}",
            source.as_deref().map(text).unwrap_or("-".to_string()),
            text(target),
            fstype.unwrap_or("-"),
        ),
        Op::CreateDirAll(path) => format!("mkdir {}", text(path)),
        Op::PathExists(path) => format!("exists {}", text(path)),
        Op::PivotRoot { new_root, old_root } => {
            format!("pivot {} {}", text(new_root), text(old_root))
        }
        Op::Unmount { target, options } => format!("umount {} {options}", text(target)),
        Op::ChangeDir(path) => format!("chdir {}", text(path)),
        Op::RemoveDir(path) => format!("rmdir {}", text(path)),
        Op::Prctl { option, arg } => format!("prctl {option} {arg}"),
        Op::ClearCapabilities(set) => format!("clear {set:?}"),
        Op::OpenSocket {
            domain,
            kind,
            protocol,
        } => format!("socket {domain} {kind} {protocol}"),
        Op::GetInterfaceFlags(name) => format!("get {name}"),
        Op::RaiseInterface(name) => format!("raise {name}"),
        Op::LandlockCreate { handled } => format!("landlock {handled:#x}"),
        Op::LandlockAllow { path, rights } => format!("allow {} {rights:#x}", text(path)),
        Op::LandlockRestrictSelf => "restrict".to_string(),
        Op::InstallFilter(_) => "install".to_string(),
        Op::Refuse(_) => "refuse".to_string(),
    }
}

/// Walks a session; operations whose description starts with one of `failing`
/// fail with error number 5.
fn walk(mut session: Session, failing: &[&str]) -> (Vec<String>, Session) {
    let mut log = Vec::new();
    loop {
        let what = match session.pending() {
            Some(op) => describe(op),
            None => return (log, session),
        };
        let fails = failing.iter().any(|start| what.starts_with(start));
        let outcome = if fails {
            os_failure(5)
        } else if what.starts_with("get ") {
            Outcome::InterfaceFlags(8)
        } else {
            Outcome::Done
        };
        log.push(what);
        session.advance(outcome);
    }
}

/// The failure that an error number stands for.
fn os_failure(errno: i32) -> Outcome {
    let error = std::io::Error::from_raw_os_error(errno);
    Outcome::Failed(Failure {
        errno,
        kind: error.kind(),
        report: error.to_string(),
    })
}

fn failure(session: &Session) -> (&'static str, String) {
    match session.result() {
        Some(Err(Error::ApplyFailed { primitive, source })) => (*primitive, format!("{source:?}")),
        other => panic!("unexpected result {other:?}"),
    }
}

fn succeeded(session: &Session) -> bool {
    matches!(session.result(), Some(Ok(())))
}

const TAIL: [&str; 9] = [
    "prctl 28 207",
    "clear Ambient",
    "clear Bounding",
    "clear Inheritable",
    "clear Effective",
    "clear Permitted",
    "prctl 4 0",
    "prctl 1 9",
    "prctl 38 1",
];

#[test]
fn an_empty_policy_still_replaces_the_root() {
    let profile = Profile::deny_all().build();
    let (log, session) = walk(apply(&profile, &LINUX).unwrap(), &[]);
    assert!(succeeded(&session));
    let mut expected = vec![
        "mount - / - 0x84000",
        "mount - / - 0x44000",
        "mkdir /tmp/.sandbox-root",
        "mount none /tmp/.sandbox-root tmpfs 0x0",
        "mkdir /tmp/.sandbox-root/proc",
        "mount proc /tmp/.sandbox-root/proc proc 0x0",
        "mkdir /tmp/.sandbox-root/tmp",
        "mount none /tmp/.sandbox-root/tmp tmpfs 0x0",
        "mkdir /tmp/.sandbox-root/.old_root",
        "pivot /tmp/.sandbox-root /tmp/.sandbox-root/.old_root",
        "chdir /",
        "umount /.old_root 2",
        "rmdir /.old_root",
        "landlock 0xffff",
        "allow /tmp 0xfffe",
        "restrict",
    ];
    expected.extend(TAIL);
    assert_eq!(log, expected);
}

#[test]
fn grants_network_and_filter_are_applied_in_order() {
    let profile = Profile::deny_all()
        .read("/usr/lib/")
        .read_write("/data")
        .network(Network::Loopback)
        .syscalls(Syscalls::Deny(&["execve"]))
        .build();
    let (log, session) = walk(apply(&profile, &LINUX).unwrap(), &[]);
    assert!(succeeded(&session));
    assert_eq!(session.raised_flags(), 9);
    let mut expected = vec![
        "mount - / - 0x84000",
        "mount - / - 0x44000",
        "socket 2 2 0",
        "get lo",
        "raise lo",
        "mkdir /tmp/.sandbox-root",
        "mount none /tmp/.sandbox-root tmpfs 0x0",
        "exists /usr/lib/",
        "mkdir /tmp/.sandbox-root/usr/lib",
        "mount /usr/lib/ /tmp/.sandbox-root/usr/lib - 0x5000",
        "mount - /tmp/.sandbox-root/usr/lib - 0x5027",
        "exists /data",
        "mkdir /tmp/.sandbox-root/data",
        "mount /data /tmp/.sandbox-root/data - 0x5000",
        "mount - /tmp/.sandbox-root/data - 0x502e",
        "mkdir /tmp/.sandbox-root/proc",
        "mount proc /tmp/.sandbox-root/proc proc 0x0",
        "mkdir /tmp/.sandbox-root/tmp",
        "mount none /tmp/.sandbox-root/tmp tmpfs 0x0",
        "mkdir /tmp/.sandbox-root/.old_root",
        "pivot /tmp/.sandbox-root /tmp/.sandbox-root/.old_root",
        "chdir /",
        "umount /.old_root 2",
        "rmdir /.old_root",
        "landlock 0xffff",
        "exists /usr/lib/",
        "allow /usr/lib/ 0xd",
        "exists /data",
        "allow /data 0xfffe",
        "allow /tmp 0xfffe",
        "restrict",
    ];
    expected.extend(TAIL);
    expected.extend(["install", "install"]);
    assert_eq!(log, expected);
}

#[test]
fn rights_match_the_landlock_crate() {
    let read = landlock::AccessFs::from_read(landlock::ABI::V5);
    let write = landlock::AccessFs::from_write(landlock::ABI::V5);
    let data = (read & !landlock::AccessFs::Execute) | write;
    assert_eq!(read.bits(), 0xd);
    assert_eq!(data.bits(), 0xfffe);
    assert_eq!((read | write).bits(), 0xffff);
}

#[test]
fn every_required_failure_aborts_under_its_name() {
    let profile = Profile::deny_all()
        .read("/bin")
        .network(Network::Loopback)
        .syscalls(Syscalls::Deny(&[]))
        .build();
    for (failing, primitive) in [
        ("mount - / - 0x84000", "mount_namespace"),
        ("mount - / - 0x44000", "mount_namespace"),
        ("socket", "network_namespace"),
        ("get lo", "network_namespace"),
        ("raise lo", "network_namespace"),
        ("mkdir /tmp/.sandbox-root", "filesystem"),
        ("mount none /tmp/.sandbox-root tmpfs", "filesystem"),
        ("mkdir /tmp/.sandbox-root/bin", "filesystem"),
        ("mount /bin", "filesystem"),
        ("mount - /tmp/.sandbox-root/bin", "filesystem"),
        ("mkdir /tmp/.sandbox-root/tmp", "filesystem"),
        ("mount none /tmp/.sandbox-root/tmp", "filesystem"),
        ("mkdir /tmp/.sandbox-root/.old_root", "filesystem"),
        ("pivot", "filesystem"),
        ("chdir", "filesystem"),
        ("umount", "filesystem"),
        ("prctl 28", "securebits"),
        ("clear Ambient", "capabilities"),
        ("clear Bounding", "capabilities"),
        ("clear Inheritable", "capabilities"),
        ("clear Effective", "capabilities"),
        ("clear Permitted", "capabilities"),
        ("prctl 4", "dumpable"),
        ("prctl 1 ", "pdeathsig"),
        ("prctl 38", "no_new_privs"),
        ("install", "seccomp"),
    ] {
        let (log, mut session) = walk(apply(&profile, &LINUX).unwrap(), &[failing]);
        assert!(log.last().unwrap().starts_with(failing), "{failing}");
        let Some(Err(Error::ApplyFailed { primitive: named, source })) = session.result() else {
            panic!("a failure is expected");
        };
        assert_eq!(*named, primitive);
        let report = std::io::Error::from_raw_os_error(5).to_string();
        match primitive {
            "capabilities" => {
                let set = failing.strip_prefix("clear ").unwrap();
                assert_eq!(source.kind(), CauseKind::Other);
                assert_eq!(
                    source.message().unwrap(),
                    format!("caps::clear({set}): {report}")
                );
            }
            "seccomp" => {
                assert_eq!(source.kind(), CauseKind::Other);
                assert_eq!(
                    source.message().unwrap(),
                    format!("seccomp apply failed: {report}")
                );
            }
            _ if failing.starts_with("mkdir") => {
                let kind = std::io::Error::from_raw_os_error(5).kind();
                assert_eq!(source.kind(), CauseKind::Reported(kind));
                assert_eq!(source.message().unwrap(), report);
            }
            _ => assert_eq!(source.kind(), CauseKind::Os(5)),
        }
        // The end is final.
        session.advance(Outcome::Done);
        assert!(session.pending().is_none());
        assert_eq!(failure(&session).0, primitive);
    }
}

#[test]
fn a_missing_grant_is_named() {
    let profile = Profile::deny_all().read("/no/such").build();
    let (_, session) = walk(apply(&profile, &LINUX).unwrap(), &["exists /no/such"]);
    match session.result() {
        Some(Err(
            error @ Error::ApplyFailed {
                primitive: "filesystem",
                source: Cause::GrantSourceMissing(path),
            },
        )) => {
            assert_eq!(path, b"/no/such");
            let cause = Cause::GrantSourceMissing(path.clone());
            assert_eq!(cause.kind(), CauseKind::NotFound);
            assert_eq!(
                cause.message().unwrap(),
                "filesystem grant source does not exist: /no/such"
            );
            assert_eq!(
                error.message(),
                "required sandbox primitive `filesystem` failed to apply"
            );
        }
        other => panic!("unexpected result {other:?}"),
    }
}

#[test]
fn proc_falls_back_to_a_bind() {
    let profile = Profile::deny_all().build();
    let (log, session) = walk(apply(&profile, &LINUX).unwrap(), &["mount proc"]);
    assert!(succeeded(&session));
    let at = log.iter().position(|s| s.starts_with("mount proc")).unwrap();
    assert_eq!(
        log[at + 1..at + 5],
        [
            "mkdir /tmp/.sandbox-root/proc",
            "mount /proc /tmp/.sandbox-root/proc - 0x5000",
            "mount - /tmp/.sandbox-root/proc - 0x5027",
            "mkdir /tmp/.sandbox-root/tmp",
        ]
    );
}

#[test]
fn proc_may_be_missing_altogether() {
    let profile = Profile::deny_all().build();
    let (log, session) = walk(
        apply(&profile, &LINUX).unwrap(),
        &["mkdir /tmp/.sandbox-root/proc"],
    );
    assert!(succeeded(&session));
    assert!(!log.iter().any(|s| s.contains("mount /proc")));
    assert!(log.contains(&"mkdir /tmp/.sandbox-root/tmp".to_string()));
    assert_eq!(log[log.len() - 9..], TAIL);
}

#[test]
fn landlock_degrades_and_the_rest_goes_on() {
    let profile = Profile::deny_all().read("/bin").read("/lib").build();
    for (failing, last) in [
        ("landlock", "landlock 0xffff"),
        ("allow /bin", "allow /bin 0xd"),
        ("allow /lib", "allow /lib 0xd"),
        ("allow /tmp", "allow /tmp 0xfffe"),
        ("restrict", "restrict"),
    ] {
        let (log, session) = walk(apply(&profile, &LINUX).unwrap(), &[failing]);
        assert!(succeeded(&session));
        assert_eq!(log[log.len() - 10], last);
        assert_eq!(log[log.len() - 9..], TAIL);
    }
}

#[test]
fn landlock_passes_over_a_path_that_is_gone() {
    let profile = Profile::deny_all().read("/bin").read("/lib").build();
    let mut session = apply(&profile, &LINUX).unwrap();
    let mut log = Vec::new();
    let mut pivoted = false;
    while let Some(op) = session.pending() {
        let what = describe(op);
        pivoted = pivoted || what.starts_with("pivot");
        let gone = pivoted && what == "exists /bin";
        log.push(what);
        session.advance(if gone {
            os_failure(2)
        } else {
            Outcome::Done
        });
    }
    assert!(succeeded(&session));
    assert!(!log.contains(&"allow /bin 0xd".to_string()));
    assert!(log.contains(&"allow /lib 0xd".to_string()));
    assert!(log.contains(&"restrict".to_string()));
}

#[test]
fn an_unremovable_old_root_is_passed_over() {
    let profile = Profile::deny_all().build();
    let (log, session) = walk(apply(&profile, &LINUX).unwrap(), &["rmdir"]);
    assert!(succeeded(&session));
    assert!(log.contains(&"restrict".to_string()));
}

#[test]
fn an_unknown_syscall_name_is_a_hard_error() {
    let profile = profiles::minimal()
        .syscalls(Syscalls::Deny(&["kill"]))
        .build();
    let (log, session) = walk(apply(&profile, &LINUX).unwrap(), &[]);
    assert_eq!(log.last().unwrap(), "refuse");
    assert!(matches!(
        session.result(),
        Some(Err(Error::ApplyFailed {
            primitive: "seccomp",
            source: Cause::Filter(FilterError::UnknownSyscall(name)),
        })) if name == "kill"
    ));
}

#[test]
fn an_allowlist_is_installed_last() {
    let profile = Profile::deny_all()
        .syscalls(Syscalls::Allow(&["read", "write"]))
        .build();
    let (log, session) = walk(apply(&profile, &LINUX).unwrap(), &[]);
    assert!(succeeded(&session));
    assert_eq!(log[log.len() - 2..], ["install", "install"]);
}

#[test]
fn a_zero_byte_in_a_grant_is_refused() {
    let profile = Profile::deny_all().read(&b"/a\0b"[..]).build();
    let (log, session) = walk(apply(&profile, &LINUX).unwrap(), &[]);
    assert_eq!(log.last().unwrap(), "refuse");
    assert_eq!(failure(&session), ("filesystem", "NulInPath".to_string()));
}

#[test]
fn only_linux_has_a_worker_side() {
    let profile = Profile::deny_all().build();
    let restrictions = Restrictions::none().build();
    for platform in [Platform::Windows, Platform::Other] {
        let host = Host { platform, ..LINUX };
        let error = apply(&profile, &host).unwrap_err();
        assert!(matches!(error, Error::UnsupportedPlatform));
        assert_eq!(
            error.message(),
            "sandbox is not implemented on this platform"
        );
        assert!(matches!(
            tighten(&restrictions, &host),
            Err(Error::UnsupportedPlatform)
        ));
    }
}

#[test]
fn the_escape_hatch_works_in_debug_builds_only() {
    let profile = Profile::deny_all().build();
    let restrictions = Restrictions::none().revoke_path("/data").build();
    for platform in [Platform::Linux, Platform::Windows, Platform::Other] {
        let disabled = Host {
            platform,
            debug_build: true,
            disable_requested: true,
            ..LINUX
        };
        assert!(sandbox_disabled(&disabled));
        assert!(succeeded(&apply(&profile, &disabled).unwrap()));
        assert!(succeeded(&tighten(&restrictions, &disabled).unwrap()));
    }
    for (debug_build, disable_requested) in [(false, true), (true, false), (false, false)] {
        let host = Host {
            debug_build,
            disable_requested,
            ..LINUX
        };
        assert!(!sandbox_disabled(&host));
        assert!(apply(&profile, &host).unwrap().pending().is_some());
    }
}

#[test]
fn tightening_stacks_a_denylist() {
    let restrictions = Restrictions::none()
        .syscalls(&["execve", "socket", "connect"])
        .build();
    let (log, session) = walk(tighten(&restrictions, &LINUX).unwrap(), &[]);
    assert!(succeeded(&session));
    assert_eq!(log, ["install", "install"]);

    let nothing = Restrictions::none().build();
    let (log, session) = walk(tighten(&nothing, &LINUX).unwrap(), &[]);
    assert!(succeeded(&session));
    assert!(log.is_empty());

    let (_, session) = walk(tighten(&restrictions, &LINUX).unwrap(), &["install"]);
    assert_eq!(failure(&session).0, "seccomp");
}

#[test]
fn revoking_a_path_is_rejected() {
    let restrictions = Restrictions::none()
        .syscalls(&["execve"])
        .revoke_path("/data")
        .build();
    let error = tighten(&restrictions, &LINUX).unwrap_err();
    assert!(matches!(
        error,
        Error::RequiredPrimitiveUnavailable("path revocation via tighten is not supported in v1")
    ));
    assert_eq!(
        error.message(),
        "required sandbox primitive unavailable: path revocation via tighten is not supported in v1"
    );
}

#[test]
fn deny_actions_by_build() {
    assert_eq!(seccomp_deny_action(true), FilterAction::Errno(1));
    assert_eq!(seccomp_deny_action(false), FilterAction::KillProcess);
}

#[test]
fn mount_flags_by_access() {
    assert_eq!(
        mount_flags_for_access(Access::ReadExec),
        libc::MS_NOSUID | libc::MS_NODEV | libc::MS_RDONLY
    );
    assert_eq!(
        mount_flags_for_access(Access::ReadWrite),
        libc::MS_NOSUID | libc::MS_NODEV | libc::MS_NOEXEC
    );
}

#[test]
fn mount_primitives_refuse_zero_bytes() {
    for ops in [
        mount_tmpfs(b"/a\0"),
        bind_mount(b"/a\0", b"/b", 1),
        bind_mount(b"/a", b"/b\0", 1),
        mount_proc(b"\0"),
        pivot_root(b"/a\0", b"/b"),
        pivot_root(b"/a", b"/b\0"),
        umount(b"/a\0"),
    ] {
        assert!(matches!(
            ops.as_slice(),
            [Op::Refuse(Cause::NulInPath)]
        ));
    }
    assert!(matches!(path_to_cstring(b"a\0b"), Err(Cause::NulInPath)));
    assert_eq!(path_to_cstring(b"/a").unwrap(), b"/a");
}

#[test]
fn a_bind_without_flags_is_not_remounted() {
    let ops = bind_mount(b"/a", b"/b", 0);
    let log: Vec<String> = ops.iter().map(describe).collect();
    assert_eq!(log, ["mkdir /b", "mount /a /b - 0x5000"]);
    assert_eq!(
        describe(&set_root_propagation(libc::MS_SHARED)),
        "mount - / - 0x100000"
    );
}

#[test]
fn return_values_are_read_by_their_sign() {
    assert_eq!(0i32.syscall_result(5), Ok(0));
    assert_eq!((-1i32).syscall_result(5), Err(5));
    assert_eq!(7isize.syscall_result(5), Ok(7));
    assert_eq!((-1isize).syscall_result(13), Err(13));
    assert_eq!(i64::MAX.syscall_result(5), Ok(i64::MAX));
    assert_eq!(i64::MIN.syscall_result(1), Err(1));
    assert_eq!(get_no_new_privs(0, 5), Ok(false));
    assert_eq!(get_no_new_privs(1, 5), Ok(true));
    assert_eq!(get_no_new_privs(-1, 22), Err(22));
}

#[test]
fn a_walk_follows_its_jumps() {
    let step = |name: &'static str, on_success, on_failure| Step {
        op: Op::GetInterfaceFlags(name),
        on_success,
        on_failure,
    };
    let session = Session::start(vec![
        step("a", 0, OnFailure::Skip(1)),
        step("b", 1, OnFailure::Skip(0)),
        step("c", 0, OnFailure::Abort("c")),
        Step {
            op: Op::ClearCapabilities(CapSet::Ambient),
            on_success: 0,
            on_failure: OnFailure::Abort("d"),
        },
    ]);
    let (log, session) = walk(session, &[]);
    assert!(succeeded(&session));
    assert_eq!(log, ["get a", "get b", "clear Ambient"]);
}

#[test]
fn the_exit_code_and_the_variable_are_stable() {
    assert_eq!(sandbox::EXIT_SANDBOX_FAILED, 90);
    assert_eq!(sandbox::DISABLE_ENV, "OPENVMM_SANDBOX_DISABLE");
}

#[test]
fn causes_have_messages() {
    assert_eq!(Cause::Os(5).kind(), CauseKind::Os(5));
    assert_eq!(Cause::Os(5).message(), None);
    assert_eq!(Cause::NulInPath.kind(), CauseKind::InvalidInput);
    assert_eq!(Cause::NulInPath.message().unwrap(), "null byte in path");
    assert_eq!(
        Cause::GrantSourceMissing(vec![b'/', 0xff])
            .message()
            .unwrap(),
        "filesystem grant source does not exist: /\u{fffd}"
    );
}

#[test]
fn reported_causes_keep_what_was_reported() {
    let directory = Cause::Directory {
        path: b"/x".to_vec(),
        kind: std::io::ErrorKind::PermissionDenied,
        report: "failed to create directory `/x`: denied".to_string(),
    };
    assert_eq!(
        directory.duplicate().kind(),
        CauseKind::Reported(std::io::ErrorKind::PermissionDenied)
    );
    assert_eq!(
        directory.duplicate().message().unwrap(),
        "failed to create directory `/x`: denied"
    );
    for set in [
        CapSet::Ambient,
        CapSet::Bounding,
        CapSet::Inheritable,
        CapSet::Effective,
        CapSet::Permitted,
    ] {
        let cause = Cause::Capabilities {
            set,
            report: "caps error: no".to_string(),
        };
        assert_eq!(cause.duplicate().kind(), CauseKind::Other);
        assert_eq!(
            cause.message().unwrap(),
            format!("caps::clear({set:?}): caps error: no")
        );
    }
    let landlock = Cause::Landlock("no".to_string());
    assert_eq!(landlock.kind(), CauseKind::Other);
    assert_eq!(landlock.message().unwrap(), "landlock: no");
    let install = Cause::Installation("no".to_string());
    assert_eq!(install.kind(), CauseKind::Other);
    assert_eq!(install.message().unwrap(), "seccomp apply failed: no");
}

#[test]
fn only_best_effort_failures_leave_success() {
    let profile = Profile::deny_all().read("/bin").build();
    let (_, session) = walk(
        apply(&profile, &LINUX).unwrap(),
        &["mount proc", "mount /proc", "rmdir", "landlock"],
    );
    assert!(succeeded(&session));
    let (_, session) = walk(apply(&profile, &LINUX).unwrap(), &["rmdir", "prctl 4"]);
    assert_eq!(failure(&session).0, "dumpable");
}

#[test]
fn a_second_denial_adds_to_the_filter() {
    let once = Restrictions::none()
        .syscalls(&["execve", "socket"])
        .build();
    let twice = Restrictions::none()
        .syscalls(&["execve"])
        .syscalls(&["socket"])
        .build();
    let first = |restrictions: &Restrictions| {
        let session = tighten(restrictions, &LINUX).unwrap();
        match session.pending() {
            Some(Op::InstallFilter(program)) => program.clone(),
            other => panic!("unexpected operation {other:?}"),
        }
    };
    assert_eq!(first(&once), first(&twice));
}
