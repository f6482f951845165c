use peel::probe::{RuntimeKind, StorageDriver};

#[test]
fn from_name_knows_the_three_runtimes() {
    assert_eq!(RuntimeKind::from_name("docker"), Some(RuntimeKind::Docker));
    assert_eq!(RuntimeKind::from_name("podman"), Some(RuntimeKind::Podman));
    assert_eq!(RuntimeKind::from_name("containerd"), Some(RuntimeKind::Containerd));
}

#[test]
fn ctr_resolves_like_containerd() {
    assert_eq!(RuntimeKind::from_name("ctr"), Some(RuntimeKind::Containerd));
    assert_eq!(RuntimeKind::from_name("ctr"), RuntimeKind::from_name("containerd"));
}

#[test]
fn from_name_ignores_case() {
    assert_eq!(RuntimeKind::from_name("DOCKER"), Some(RuntimeKind::Docker));
    assert_eq!(RuntimeKind::from_name("Podman"), Some(RuntimeKind::Podman));
    assert_eq!(RuntimeKind::from_name("ContainerD"), Some(RuntimeKind::Containerd));
    assert_eq!(RuntimeKind::from_name("CTR"), Some(RuntimeKind::Containerd));
}

#[test]
fn from_name_lowers_beyond_ascii() {
    // U+212A, the Kelvin sign, has the letter k as its lowercase form.
    assert_eq!(RuntimeKind::from_name("doc\u{212A}er"), Some(RuntimeKind::Docker));
}

#[test]
fn from_name_rejects_other_names() {
    assert_eq!(RuntimeKind::from_name(""), None);
    assert_eq!(RuntimeKind::from_name("dockerd"), None);
    assert_eq!(RuntimeKind::from_name(" docker"), None);
    assert_eq!(RuntimeKind::from_name("cri-o"), None);
}

#[test]
fn from_lowercase_name_is_exact() {
    assert_eq!(RuntimeKind::from_lowercase_name("docker"), Some(RuntimeKind::Docker));
    assert_eq!(RuntimeKind::from_lowercase_name("ctr"), Some(RuntimeKind::Containerd));
    assert_eq!(RuntimeKind::from_lowercase_name("Docker"), None);
    assert_eq!(RuntimeKind::from_lowercase_name("CTR"), None);
}

#[test]
fn matches_compares_variants() {
    let all = [RuntimeKind::Docker, RuntimeKind::Podman, RuntimeKind::Containerd];
    for (i, a) in all.iter().enumerate() {
        for (j, b) in all.iter().enumerate() {
            assert_eq!(a.matches(b), i == j);
        }
    }
}

#[test]
fn runtime_names() {
    assert_eq!(RuntimeKind::Docker.name(), "Docker");
    assert_eq!(RuntimeKind::Podman.name(), "Podman");
    assert_eq!(RuntimeKind::Containerd.name(), "containerd");
}

#[test]
fn driver_names() {
    assert_eq!(StorageDriver::Overlay2.name(), "overlay2");
    assert_eq!(StorageDriver::Fuse.name(), "fuse-overlayfs");
    assert_eq!(StorageDriver::Btrfs.name(), "btrfs");
    assert_eq!(StorageDriver::Zfs.name(), "zfs");
    assert_eq!(StorageDriver::Vfs.name(), "vfs");
    assert_eq!(StorageDriver::Unknown.name(), "unknown");
}
