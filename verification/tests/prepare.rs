//! The launch-time configuration.

use sandbox::prepare::{linux_clone_flags, windows_preparation};
use sandbox::{
    prepare, Capability, HandleTag, Host, Identity, Network, Platform, Profile, RawHandle,
    SandboxProcessConfig, WindowsPreparation,
};

const LINUX: Host = Host {
    platform: Platform::Linux,
    debug_build: false,
    disable_requested: false,
    arch: "x86_64",
};

#[test]
fn prepare_echoes_handles_and_identity() {
    let profile = Profile::deny_all().build();
    let identity = Identity {
        uid: Some(1000),
        gid: Some(1000),
        app_container: None,
    };
    let handles = [(HandleTag(1), RawHandle(3)), (HandleTag(2), RawHandle(7))];

    let prep = prepare(&profile, &identity, &handles, &LINUX).unwrap();

    assert_eq!(prep.uid, Some(1000));
    assert_eq!(prep.gid, Some(1000));
    assert_eq!(prep.inherit_handles, handles);
    assert_eq!(
        prep.clone_flags,
        (libc::CLONE_NEWUSER | libc::CLONE_NEWNET) as u64
    );
}

#[test]
fn default_identity_leaves_uid_gid_unset() {
    let profile = Profile::deny_all().build();
    let prep = prepare(&profile, &Identity::default(), &[], &LINUX).unwrap();
    assert_eq!(prep.uid, None);
    assert_eq!(prep.gid, None);
    assert!(prep.inherit_handles.is_empty());
}

#[test]
fn filesystem_grants_request_a_mount_namespace() {
    let profile = Profile::deny_all().read("/usr/lib").build();

    assert_eq!(
        linux_clone_flags(&profile),
        (libc::CLONE_NEWUSER | libc::CLONE_NEWNET | libc::CLONE_NEWNS) as u64
    );
}

#[test]
fn unrestricted_network_omits_network_namespace() {
    let profile = Profile::deny_all().network(Network::Unrestricted).build();

    assert_eq!(linux_clone_flags(&profile), libc::CLONE_NEWUSER as u64);
}

#[test]
fn unrestricted_network_keeps_filesystem_namespace() {
    let profile = Profile::deny_all()
        .network(Network::Unrestricted)
        .read("/usr/lib")
        .build();

    assert_eq!(
        linux_clone_flags(&profile),
        (libc::CLONE_NEWUSER | libc::CLONE_NEWNS) as u64
    );
}

#[test]
fn windows_preparation_reflects_capabilities_and_hardening() {
    let profile = Profile::deny_all()
        .capability(Capability::LPAC_COM)
        .capability(Capability::REGISTRY_READ)
        .build();
    let identity = Identity {
        app_container: Some("worker.net".to_string()),
        ..Default::default()
    };

    let win = windows_preparation(&profile, &identity);

    assert_eq!(win.app_container.as_deref(), Some("worker.net"));
    assert_eq!(win.capabilities, vec!["lpacCom", "registryRead"]);
    assert!(win.lpac_opt_out);
    assert!(win.no_remote_images);
    assert!(win.win32k_lockdown);
    assert!(win.disallow_child_processes);
}

#[test]
fn loopback_still_gets_a_network_namespace() {
    let profile = Profile::deny_all().network(Network::Loopback).build();
    assert_eq!(linux_clone_flags(&profile), 0x5000_0000);
}

#[test]
fn linux_maps_the_user_and_has_no_windows_data() {
    let profile = Profile::deny_all().build();
    let prep = prepare(&profile, &Identity::default(), &[], &LINUX).unwrap();
    assert!(prep.map_current_user);
    assert!(prep.windows.is_none());
}

#[test]
fn the_debug_escape_creates_no_namespace() {
    let profile = Profile::deny_all().read("/usr/lib").build();
    let disabled = Host {
        debug_build: true,
        disable_requested: true,
        ..LINUX
    };
    let prep = prepare(&profile, &Identity::default(), &[], &disabled).unwrap();
    assert_eq!(prep.clone_flags, 0);
    assert!(!prep.map_current_user);

    let release = Host {
        disable_requested: true,
        ..LINUX
    };
    let prep = prepare(&profile, &Identity::default(), &[], &release).unwrap();
    assert_eq!(prep.clone_flags, 0x5002_0000);
    assert!(prep.map_current_user);
}

#[test]
fn windows_gets_launch_data_and_no_namespace() {
    let profile = Profile::deny_all()
        .capability(Capability::LPAC_CRYPTO_SERVICES)
        .build();
    let host = Host {
        platform: Platform::Windows,
        ..LINUX
    };
    let prep = prepare(&profile, &Identity::default(), &[], &host).unwrap();
    assert_eq!(prep.clone_flags, 0);
    assert!(!prep.map_current_user);
    let windows = prep.windows.unwrap();
    assert_eq!(windows.app_container, None);
    assert_eq!(windows.capabilities, vec!["lpacCryptoServices"]);
    assert!(windows.lpac_opt_out);
    let copy = SandboxProcessConfig {
        windows: Some(windows),
        ..SandboxProcessConfig::default()
    }
    .clone();
    assert_eq!(
        copy.windows.unwrap().capabilities,
        vec!["lpacCryptoServices"]
    );
}

#[test]
fn other_platforms_get_only_the_echo() {
    let profile = Profile::deny_all().read("/lib").build();
    let host = Host {
        platform: Platform::Other,
        ..LINUX
    };
    let handles = [(HandleTag(0), RawHandle(9))];
    let prep = prepare(&profile, &Identity::default(), &handles, &host).unwrap();
    assert_eq!(prep.clone_flags, 0);
    assert_eq!(prep.inherit_handles, handles);
    assert!(prep.windows.is_none());
}

#[test]
fn defaults_are_empty() {
    let config = SandboxProcessConfig::default();
    assert_eq!(config.clone_flags, 0);
    assert!(!config.map_current_user);
    assert!(config.inherit_handles.is_empty());
    assert!(config.windows.is_none());
    let windows = WindowsPreparation::default();
    assert!(windows.capabilities.is_empty());
    assert!(!windows.lpac_opt_out);
    let identity = Identity {
        uid: Some(7),
        gid: None,
        app_container: Some("box".to_string()),
    };
    assert_eq!(identity.clone(), identity);
}
