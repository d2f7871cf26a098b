//! Worker host roles and launch plans.

use sandbox::error::Error;
use sandbox::meshworker::{
    apply_vmm_mesh_host_sandbox, plan_host, sandbox_role_from_args, HostPlan, LaunchError,
    LinuxSandboxProfile, MeshHostError, RoleError, SandboxRole,
};
use sandbox::profile::Access;
use sandbox::sandbox_profiles;
use sandbox::{Host, Network, Platform, Syscalls};

const LINUX: Host = Host {
    platform: Platform::Linux,
    debug_build: false,
    disable_requested: false,
    arch: "x86_64",
};

fn args(list: &[&str]) -> Vec<String> {
    list.iter().map(|arg| arg.to_string()).collect()
}

#[test]
fn a_role_is_found_among_other_arguments() {
    let list = args(&["openvmm", "--openvmm-sandbox-role=tpm", "--verbose"]);
    assert_eq!(
        sandbox_role_from_args(&list).unwrap(),
        Some(SandboxRole::Tpm)
    );
    let list = args(&["--openvmm-sandbox-role=vm"]);
    assert_eq!(
        sandbox_role_from_args(&list).unwrap(),
        Some(SandboxRole::Vm)
    );
}

#[test]
fn no_role_argument_gives_no_role() {
    let list = args(&["openvmm", "openvmm-sandbox-role=vm", "--openvmm-sandbox-role"]);
    assert_eq!(sandbox_role_from_args(&list).unwrap(), None);
    assert_eq!(sandbox_role_from_args(&[]).unwrap(), None);
}

#[test]
fn an_unknown_role_is_refused() {
    let list = args(&["--openvmm-sandbox-role=gpu", "--openvmm-sandbox-role=vm"]);
    let error = sandbox_role_from_args(&list).unwrap_err();
    assert!(matches!(&error, RoleError::Unknown(value) if value == "gpu"));
    assert_eq!(error.message(), "unknown OpenVMM sandbox role `gpu`");
    let list = args(&["--openvmm-sandbox-role="]);
    assert!(matches!(
        sandbox_role_from_args(&list),
        Err(RoleError::Unknown(value)) if value.is_empty()
    ));
}

#[test]
fn a_second_role_is_refused() {
    let list = args(&["--openvmm-sandbox-role=vm", "x", "--openvmm-sandbox-role=vm"]);
    let error = sandbox_role_from_args(&list).unwrap_err();
    assert!(matches!(error, RoleError::Repeated));
    assert_eq!(
        error.message(),
        "OpenVMM sandbox role specified more than once"
    );
    // The second argument is read before it is counted.
    let list = args(&["--openvmm-sandbox-role=vm", "--openvmm-sandbox-role=gpu"]);
    assert!(matches!(
        sandbox_role_from_args(&list),
        Err(RoleError::Unknown(_))
    ));
}

#[test]
fn roles_read_the_system_directories() {
    for role in [SandboxRole::Vm, SandboxRole::Tpm] {
        let profile = role.profile();
        assert_eq!(profile.name(), role.name());
        let paths: Vec<&[u8]> = profile
            .inner
            .fs
            .iter()
            .map(|grant| grant.path.as_slice())
            .collect();
        assert_eq!(
            paths,
            vec![&b"/bin"[..], b"/lib", b"/usr", b"/etc", b"/dev"]
        );
        assert!(profile
            .inner
            .fs
            .iter()
            .all(|grant| grant.access == Access::ReadExec));
        assert_eq!(profile.inner.network, Network::Isolated);
    }
    assert!(matches!(
        SandboxRole::Vm.profile().inner.syscalls,
        Syscalls::Deny(&["kill"])
    ));
    assert!(matches!(
        SandboxRole::Tpm.profile().inner.syscalls,
        Syscalls::Deny(&[])
    ));
}

#[test]
fn stand_alone_role_policies() {
    let vm = sandbox_profiles::SandboxRole::Vm.profile();
    assert_eq!(vm.name(), "vm");
    assert_eq!(vm.inner.fs.len(), 5);
    assert!(matches!(vm.inner.syscalls, Syscalls::Deny(&["kill"])));
    let tpm = sandbox_profiles::SandboxRole::Tpm.profile();
    assert_eq!(tpm.name(), "tpm");
    assert!(tpm.inner.fs.is_empty());
    assert_eq!(tpm.inner.network, Network::Isolated);
    assert!(matches!(
        tpm.inner.syscalls,
        Syscalls::Deny(&["kill", "tkill", "tgkill"])
    ));
}

#[test]
fn a_sandboxed_host_is_told_its_role() {
    for role in [SandboxRole::Vm, SandboxRole::Tpm] {
        let plan = plan_host("ignored".to_string(), Some(role), true, &LINUX).unwrap();
        let HostPlan::Launch(process) = plan else {
            panic!("a process of its own is expected");
        };
        assert_eq!(process.name, role.name());
        assert_eq!(
            process.args,
            vec![format!("--openvmm-sandbox-role={}", role.name())]
        );
        assert_eq!(
            process.sandbox,
            Some(LinuxSandboxProfile {
                clone_flags: libc::CLONE_NEWUSER | libc::CLONE_NEWNET | libc::CLONE_NEWNS,
                self_map_user_namespace: true,
            })
        );
        assert_eq!(sandbox_role_from_args(&process.args).unwrap(), Some(role));
    }
}

#[test]
fn a_disabled_sandbox_maps_no_user() {
    let host = Host {
        debug_build: true,
        disable_requested: true,
        ..LINUX
    };
    let plan = plan_host("tpm".to_string(), Some(SandboxRole::Tpm), true, &host).unwrap();
    let HostPlan::Launch(process) = plan else {
        panic!("a process of its own is expected");
    };
    assert_eq!(
        process.sandbox,
        Some(LinuxSandboxProfile {
            clone_flags: 0,
            self_map_user_namespace: false,
        })
    );
}

#[test]
fn an_ordinary_host_keeps_its_name() {
    let plan = plan_host("vmm".to_string(), None, true, &LINUX).unwrap();
    let HostPlan::Launch(process) = plan else {
        panic!("a process of its own is expected");
    };
    assert_eq!(process.name, "vmm");
    assert!(process.args.is_empty());
    assert!(process.sandbox.is_none());
}

#[test]
fn a_single_process_runs_hosts_locally() {
    for role in [None, Some(SandboxRole::Tpm)] {
        let plan = plan_host("vmm".to_string(), role, false, &LINUX).unwrap();
        assert!(matches!(plan, HostPlan::Local));
    }
}

#[test]
fn a_role_is_refused_off_linux() {
    for platform in [Platform::Windows, Platform::Other] {
        let host = Host { platform, ..LINUX };
        for multi_process in [false, true] {
            let plan = plan_host(
                "tpm".to_string(),
                Some(SandboxRole::Tpm),
                multi_process,
                &host,
            );
            assert!(matches!(
                plan,
                Err(LaunchError::Sandbox(Error::UnsupportedPlatform))
            ));
            assert!(plan_host("vmm".to_string(), None, multi_process, &host).is_ok());
        }
    }
}

#[test]
fn clone_flags_must_fit() {
    assert!(LinuxSandboxProfile::from_clone_flags(0x8000_0000).is_none());
    assert_eq!(
        LinuxSandboxProfile::from_clone_flags(0x7fff_ffff).map(|p| p.clone_flags),
        Some(i32::MAX)
    );
    assert_eq!(
        LinuxSandboxProfile::from_clone_flags(0),
        Some(LinuxSandboxProfile {
            clone_flags: 0,
            self_map_user_namespace: false,
        })
    );
}

#[test]
fn a_host_process_confines_itself_by_its_role() {
    let none = apply_vmm_mesh_host_sandbox(&args(&["openvmm"]), &LINUX).unwrap();
    assert!(none.is_none());

    let tpm = args(&["openvmm", "--openvmm-sandbox-role=tpm"]);
    let session = apply_vmm_mesh_host_sandbox(&tpm, &LINUX).unwrap().unwrap();
    assert!(session.pending().is_some());

    let bad = args(&["--openvmm-sandbox-role=gpu"]);
    assert!(matches!(
        apply_vmm_mesh_host_sandbox(&bad, &LINUX),
        Err(MeshHostError::Role(RoleError::Unknown(_)))
    ));

    let windows = Host {
        platform: Platform::Windows,
        ..LINUX
    };
    assert!(matches!(
        apply_vmm_mesh_host_sandbox(&tpm, &windows),
        Err(MeshHostError::Sandbox(Error::UnsupportedPlatform))
    ));
}
