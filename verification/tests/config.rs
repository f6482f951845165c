use peel::config::{
    apply_override, get, init_from_cli, position_of_kind, AppConfig, ConfigError, ConfigStore,
};
use peel::probe::{ProbeResult, RuntimeInfo, RuntimeKind, StorageDriver};

fn runtime(kind: RuntimeKind) -> RuntimeInfo {
    RuntimeInfo {
        kind,
        binary_path: "/usr/bin/x".to_string(),
        storage_root: "/var/lib/x".to_string(),
        storage_driver: StorageDriver::Unknown,
        can_read: false,
        is_running: false,
    }
}

fn found(kinds: &[RuntimeKind]) -> ProbeResult {
    ProbeResult {
        runtimes: kinds.iter().map(|k| runtime(*k)).collect(),
        default: if kinds.is_empty() { None } else { Some(0) },
    }
}

#[test]
fn position_of_kind_is_the_first_place() {
    let list = found(&[
        RuntimeKind::Docker,
        RuntimeKind::Containerd,
        RuntimeKind::Podman,
        RuntimeKind::Containerd,
    ])
    .runtimes;
    assert_eq!(position_of_kind(&list, &RuntimeKind::Docker), Some(0));
    assert_eq!(position_of_kind(&list, &RuntimeKind::Containerd), Some(1));
    assert_eq!(position_of_kind(&list, &RuntimeKind::Podman), Some(2));
    assert_eq!(position_of_kind(&list[..1].to_vec(), &RuntimeKind::Podman), None);
    assert_eq!(position_of_kind(&Vec::new(), &RuntimeKind::Docker), None);
}

#[test]
fn an_override_moves_the_default() {
    let all = found(&[RuntimeKind::Docker, RuntimeKind::Podman, RuntimeKind::Containerd]);
    let chosen = apply_override(all.clone(), "podman", Some(RuntimeKind::Podman)).unwrap();
    assert_eq!(chosen.default, Some(1));
    assert_eq!(chosen.runtimes, all.runtimes);
    let chosen = apply_override(all.clone(), "ctr", Some(RuntimeKind::Containerd)).unwrap();
    assert_eq!(chosen.default, Some(2));
    let chosen = apply_override(all.clone(), "docker", Some(RuntimeKind::Docker)).unwrap();
    assert_eq!(chosen, all);
}

#[test]
fn an_unknown_name_is_an_error() {
    let all = found(&[RuntimeKind::Docker]);
    assert_eq!(
        apply_override(all, "lxc", None),
        Err(ConfigError::UnknownRuntime("lxc".to_string()))
    );
}

#[test]
fn an_undetected_runtime_is_an_error() {
    let some = found(&[RuntimeKind::Docker, RuntimeKind::Containerd]);
    assert_eq!(
        apply_override(some, "Podman", Some(RuntimeKind::Podman)),
        Err(ConfigError::NotDetected("Podman".to_string()))
    );
    assert_eq!(
        apply_override(found(&[]), "docker", Some(RuntimeKind::Docker)),
        Err(ConfigError::NotDetected("docker".to_string()))
    );
}

#[test]
fn error_messages_name_the_request_and_the_way_on() {
    assert_eq!(
        ConfigError::UnknownRuntime("lxc".to_string()).message(),
        "Unknown runtime 'lxc'. Valid options: docker, podman, containerd"
    );
    assert_eq!(
        ConfigError::NotDetected("podman".to_string()).message(),
        "Runtime 'podman' was not detected on this system. Run `peel probe` to see available runtimes."
    );
}

#[test]
fn a_store_is_empty_until_it_is_initialized() {
    let mut store = ConfigStore::new();
    assert!(!store.is_initialized());
    let config = AppConfig { probe: found(&[]), json: true, runtime_override: None };
    store.initialize(config.clone());
    assert!(store.is_initialized());
    assert_eq!(store.get(), &config);
    assert_eq!(get(&store), &config);
    assert_eq!(get(&store), &config);
}

#[test]
fn init_without_override_keeps_the_probe_result() {
    let mut store = ConfigStore::new();
    let all = found(&[RuntimeKind::Podman, RuntimeKind::Containerd]);
    assert_eq!(init_from_cli(&mut store, all.clone(), false, None), Ok(()));
    assert!(store.is_initialized());
    assert_eq!(get(&store), &AppConfig { probe: all, json: false, runtime_override: None });
}

#[test]
fn init_with_override_selects_the_runtime() {
    let mut store = ConfigStore::new();
    let all = found(&[RuntimeKind::Docker, RuntimeKind::Podman, RuntimeKind::Containerd]);
    assert_eq!(init_from_cli(&mut store, all.clone(), true, Some("CTR".to_string())), Ok(()));
    let config = get(&store);
    assert_eq!(config.probe.default, Some(2));
    assert_eq!(config.probe.runtimes, all.runtimes);
    assert!(config.json);
    assert_eq!(config.runtime_override, Some("CTR".to_string()));
}

#[test]
fn ctr_and_containerd_select_the_same_runtime() {
    let all = found(&[RuntimeKind::Docker, RuntimeKind::Containerd]);
    let mut by_ctr = ConfigStore::new();
    let mut by_name = ConfigStore::new();
    assert_eq!(init_from_cli(&mut by_ctr, all.clone(), false, Some("ctr".to_string())), Ok(()));
    assert_eq!(
        init_from_cli(&mut by_name, all, false, Some("containerd".to_string())),
        Ok(())
    );
    assert_eq!(get(&by_ctr).probe, get(&by_name).probe);
    assert_eq!(get(&by_ctr).probe.default, Some(1));
}

#[test]
fn a_failed_init_sets_nothing() {
    let mut store = ConfigStore::new();
    let all = found(&[RuntimeKind::Docker]);
    assert_eq!(
        init_from_cli(&mut store, all.clone(), false, Some("rkt".to_string())),
        Err(ConfigError::UnknownRuntime("rkt".to_string()))
    );
    assert!(!store.is_initialized());
    assert_eq!(
        init_from_cli(&mut store, all.clone(), false, Some("podman".to_string())),
        Err(ConfigError::NotDetected("podman".to_string()))
    );
    assert!(!store.is_initialized());
    assert_eq!(init_from_cli(&mut store, all, false, Some("docker".to_string())), Ok(()));
    assert!(store.is_initialized());
}

#[test]
fn a_second_set_is_refused_and_changes_nothing() {
    let mut store = ConfigStore::new();
    let first = AppConfig { probe: found(&[RuntimeKind::Docker]), json: false, runtime_override: None };
    let second = AppConfig { probe: found(&[]), json: true, runtime_override: None };
    assert_eq!(store.set(first.clone()), Ok(()));
    assert_eq!(store.set(second.clone()), Err(second));
    assert_eq!(store.current(), Some(&first));
    assert_eq!(get(&store), &first);
}

#[test]
fn nothing_is_read_before_the_first_set() {
    let store = ConfigStore::new();
    assert!(!store.is_initialized());
    assert_eq!(store.current(), None);
}

#[test]
fn the_first_of_many_offers_stays() {
    let mut store = ConfigStore::new();
    let offers: Vec<AppConfig> = [false, true, false]
        .iter()
        .map(|json| AppConfig {
            probe: found(&[RuntimeKind::Podman]),
            json: *json,
            runtime_override: None,
        })
        .collect();
    assert_eq!(store.set(offers[0].clone()), Ok(()));
    for offer in &offers[1..] {
        assert_eq!(store.set(offer.clone()), Err(offer.clone()));
        assert_eq!(store.current(), Some(&offers[0]));
    }
}
