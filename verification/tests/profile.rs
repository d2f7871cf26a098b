//! The policy vocabulary.

use sandbox::profile::Access;
use sandbox::profiles;
use sandbox::{Capability, Network, Profile, Restrictions, Syscalls};

#[test]
fn deny_all_defaults_to_no_network_no_seccomp() {
    let profile = Profile::deny_all().build();
    assert_eq!(profile.inner.network, Network::Isolated);
    assert!(matches!(profile.inner.syscalls, Syscalls::Unfiltered));
    assert!(profile.inner.fs.is_empty());
}

#[test]
fn read_grants_are_read_exec() {
    let profile = Profile::deny_all().read("/lib").build();
    assert_eq!(profile.inner.fs.len(), 1);
    assert_eq!(profile.inner.fs[0].access, Access::ReadExec);
}

#[test]
fn network_grant_is_stored() {
    let profile = Profile::deny_all().network(Network::Loopback).build();
    assert_eq!(profile.inner.network, Network::Loopback);

    let profile = Profile::deny_all().network(Network::Unrestricted).build();
    assert_eq!(profile.inner.network, Network::Unrestricted);
}

#[test]
fn syscalls_deny_is_stored() {
    let profile = Profile::deny_all()
        .syscalls(Syscalls::Deny(&["socket"]))
        .build();
    assert!(matches!(
        profile.inner.syscalls,
        Syscalls::Deny(&["socket"])
    ));
}

#[test]
fn syscalls_allow_is_stored() {
    let profile = Profile::deny_all()
        .syscalls(Syscalls::Allow(&["read", "write"]))
        .build();
    assert!(matches!(
        profile.inner.syscalls,
        Syscalls::Allow(&["read", "write"])
    ));
}

#[test]
fn deny_all_is_unnamed_and_grants_no_capability() {
    let profile = Profile::deny_all().build();
    assert_eq!(profile.name(), "unnamed");
    assert!(profile.inner.capabilities.is_empty());
}

#[test]
fn write_grants_keep_their_path_and_order() {
    let profile = Profile::deny_all()
        .read_write("/var/lib/vtpm")
        .read(String::from("/usr"))
        .read(vec![b'/', 0xff])
        .read(&b"/opt"[..])
        .build();
    let grants: Vec<(&[u8], Access)> = profile
        .inner
        .fs
        .iter()
        .map(|grant| (grant.path.as_slice(), grant.access))
        .collect();
    assert_eq!(
        grants,
        vec![
            (&b"/var/lib/vtpm"[..], Access::ReadWrite),
            (&b"/usr"[..], Access::ReadExec),
            (&b"/\xff"[..], Access::ReadExec),
            (&b"/opt"[..], Access::ReadExec),
        ]
    );
}

#[test]
fn scalar_grants_are_replaced_by_a_later_call() {
    let profile = Profile::deny_all()
        .name("first")
        .network(Network::Unrestricted)
        .syscalls(Syscalls::Deny(&["socket"]))
        .name("second")
        .network(Network::Isolated)
        .syscalls(Syscalls::Unfiltered)
        .build();
    assert_eq!(profile.name(), "second");
    assert_eq!(profile.inner.network, Network::Isolated);
    assert!(matches!(profile.inner.syscalls, Syscalls::Unfiltered));
}

#[test]
fn edit_widens_a_copy() {
    let base = Profile::deny_all()
        .name("base")
        .read("/lib")
        .capability(Capability::LPAC_COM)
        .build();
    let wider = base
        .edit()
        .read_write("/data")
        .capability(Capability::LPAC_CRYPTO_SERVICES)
        .build();
    assert_eq!(base.inner.fs.len(), 1);
    assert_eq!(base.inner.capabilities, vec![Capability::LPAC_COM]);
    assert_eq!(wider.name(), "base");
    assert_eq!(wider.inner.fs.len(), 2);
    assert_eq!(wider.inner.fs[0].path, b"/lib");
    assert_eq!(wider.inner.fs[1].path, b"/data");
    assert_eq!(
        wider.inner.capabilities,
        vec![Capability::LPAC_COM, Capability::LPAC_CRYPTO_SERVICES]
    );
}

#[test]
fn cloned_builders_are_independent() {
    let base = Profile::deny_all().read("/lib");
    let other = base.clone().read("/usr").build();
    let base = base.build();
    assert_eq!(base.inner.fs.len(), 1);
    assert_eq!(other.inner.fs.len(), 2);
    assert_eq!(other.clone().inner.fs[1].path, b"/usr");
}

#[test]
fn capabilities_have_stable_monikers() {
    assert_eq!(Capability::LPAC_COM.moniker(), "lpacCom");
    assert_eq!(
        Capability::LPAC_CRYPTO_SERVICES.moniker(),
        "lpacCryptoServices"
    );
    assert_eq!(Capability::REGISTRY_READ.moniker(), "registryRead");
}

#[test]
fn restrictions_start_empty_and_accumulate() {
    let none = Restrictions::none().build();
    assert!(none.inner.syscalls.is_none());
    assert!(none.inner.revoke_paths.is_empty());

    let some = Restrictions::none()
        .revoke_path("/data")
        .syscalls(&["execve"])
        .revoke_path("/etc")
        .syscalls(&["socket", "connect"])
        .build();
    assert_eq!(
        some.inner.syscalls,
        Some(vec!["execve", "socket", "connect"])
    );
    assert_eq!(
        some.inner.revoke_paths,
        vec![b"/data".to_vec(), b"/etc".to_vec()]
    );
    let copy = some.clone();
    assert_eq!(copy.inner.revoke_paths, some.inner.revoke_paths);
    assert_eq!(copy.inner.syscalls, some.inner.syscalls);
    let builder = Restrictions::none().revoke_path("/a");
    assert_eq!(builder.clone().build().inner.revoke_paths.len(), 1);
    assert_eq!(builder.revoke_path("/b").build().inner.revoke_paths.len(), 2);
}

#[test]
fn syscalls_are_unfiltered_by_default() {
    assert!(matches!(Syscalls::default(), Syscalls::Unfiltered));
}

#[test]
fn minimal_grants_the_loader_and_the_baseline_filter() {
    let profile = profiles::minimal().build();
    assert_eq!(profile.name(), "minimal");
    assert_eq!(profile.inner.fs.len(), 2);
    assert_eq!(profile.inner.fs[0].path, b"/bin");
    assert_eq!(profile.inner.fs[1].path, b"/lib");
    assert!(profile
        .inner
        .fs
        .iter()
        .all(|grant| grant.access == Access::ReadExec));
    assert_eq!(profile.inner.network, Network::Isolated);
    assert!(matches!(profile.inner.syscalls, Syscalls::Deny(&[])));
    assert!(profile.inner.capabilities.is_empty());
}

#[test]
fn minimal_can_be_widened() {
    let profile = profiles::minimal()
        .name("my_worker")
        .read("/usr/lib")
        .network(Network::Loopback)
        .build();
    assert_eq!(profile.name(), "my_worker");
    assert_eq!(profile.inner.fs.len(), 3);
    assert_eq!(profile.inner.fs[2].path, b"/usr/lib");
    assert_eq!(profile.inner.network, Network::Loopback);
}

#[test]
fn a_second_denial_keeps_the_first() {
    let both = Restrictions::none()
        .syscalls(&["execve"])
        .syscalls(&["socket"])
        .build();
    assert_eq!(both.inner.syscalls, Some(vec!["execve", "socket"]));
    let none = Restrictions::none().syscalls(&[]).build();
    assert_eq!(none.inner.syscalls, Some(vec![]));
}
