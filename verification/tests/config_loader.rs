use proxy_core::config::{
    build_proxy_settings_config, build_secrets_config, build_target, build_targets, malformed,
    require_group, require_key, unreadable, Loaded, ProxySettingsConfig, ProxySettingsDocument,
    ProxySettingsGroup, SecretsConfig, SecretsDocument, SecretsGroup, Target, TargetEntry,
    CONFIG_PATH,
};
use proxy_core::errors::{ConfigCause, ConfigError};

fn text(s: &str) -> Option<String> {
    Some(s.to_string())
}

fn full_secrets() -> SecretsGroup {
    SecretsGroup {
        store_address: text("10.1.2.3:6379"),
        store_password: text("hunter2"),
        proxy_address: text("0.0.0.0:4000"),
        metrics_address: text("0.0.0.0:9100"),
    }
}

fn entry(port: u32, team_ip: &str) -> TargetEntry {
    TargetEntry { port: Some(port), team_ip: text(team_ip) }
}

fn full_settings() -> ProxySettingsGroup {
    ProxySettingsGroup {
        service_ports: Some(vec![3444, 3445]),
        team_ips: Some(vec!["10.0.12.23".to_string(), "10.0.12.24".to_string()]),
        targets: Some(vec![entry(3444, "10.0.12.23"), entry(3445, "10.0.12.24"), entry(3444, "10.0.12.24")]),
    }
}

fn secrets_from(group: SecretsGroup) -> Result<SecretsConfig, ConfigError> {
    build_secrets_config(Loaded::Document(SecretsDocument { secrets: Some(group) }))
}

fn settings_from(group: ProxySettingsGroup) -> Result<ProxySettingsConfig, ConfigError> {
    build_proxy_settings_config(Loaded::Document(ProxySettingsDocument {
        proxy_settings: Some(group),
    }))
}

fn assert_no_group_key(e: ConfigError, group: &str, key: &str, value_example: &str) {
    match e {
        ConfigError::NoGroupKey { group: g, key: k, value_example: v } => {
            assert_eq!(g, group);
            assert_eq!(k, key);
            assert_eq!(v, value_example);
        }
        other => panic!("expected a missing key within a group, got {:?}", other),
    }
}

fn assert_no_target_field(e: ConfigError) {
    match e {
        ConfigError::NoListElement { list_name, element_example } => {
            assert_eq!(list_name, "targets");
            assert_eq!(element_example, "{ team_ip: 127.0.0.1, port: 4554 }");
        }
        other => panic!("expected a malformed list element, got {:?}", other),
    }
}

#[test]
fn config_path_is_fixed() {
    assert_eq!(CONFIG_PATH, "config.yaml");
}

#[test]
fn complete_secrets_round_trip() {
    let config = secrets_from(full_secrets()).unwrap();
    assert_eq!(
        config,
        SecretsConfig {
            store_address: "10.1.2.3:6379".to_string(),
            store_password: "hunter2".to_string(),
            proxy_address: "0.0.0.0:4000".to_string(),
            metrics_address: "0.0.0.0:9100".to_string(),
        }
    );
}

#[test]
fn complete_proxy_settings_round_trip() {
    let config = settings_from(full_settings()).unwrap();
    assert_eq!(config.service_ports, vec![3444, 3445]);
    assert_eq!(config.team_ips, vec!["10.0.12.23".to_string(), "10.0.12.24".to_string()]);
    assert_eq!(
        config.targets,
        vec![
            Target { port: 3444, team_ip: "10.0.12.23".to_string() },
            Target { port: 3445, team_ip: "10.0.12.24".to_string() },
            Target { port: 3444, team_ip: "10.0.12.24".to_string() },
        ]
    );
}

#[test]
fn empty_password_is_a_value() {
    let mut group = full_secrets();
    group.store_password = text("");
    assert_eq!(secrets_from(group).unwrap().store_password, "");
}

#[test]
fn empty_lists_are_accepted() {
    let group = ProxySettingsGroup {
        service_ports: Some(vec![]),
        team_ips: Some(vec![]),
        targets: Some(vec![]),
    };
    let config = settings_from(group).unwrap();
    assert!(config.service_ports.is_empty());
    assert!(config.team_ips.is_empty());
    assert!(config.targets.is_empty());
}

#[test]
fn missing_secrets_group_is_named() {
    let res = build_secrets_config(Loaded::Document(SecretsDocument { secrets: None }));
    match res {
        Err(ConfigError::NoKey { key }) => assert_eq!(key, "secrets"),
        other => panic!("expected a missing top-level key, got {:?}", other),
    }
}

#[test]
fn missing_proxy_settings_group_is_named() {
    let res = build_proxy_settings_config(Loaded::Document(ProxySettingsDocument {
        proxy_settings: None,
    }));
    match res {
        Err(ConfigError::NoKey { key }) => assert_eq!(key, "proxy_settings"),
        other => panic!("expected a missing top-level key, got {:?}", other),
    }
}

#[test]
fn missing_store_address_is_named() {
    let mut group = full_secrets();
    group.store_address = None;
    assert_no_group_key(secrets_from(group).unwrap_err(), "secrets", "store_address", "127.0.0.1:2137");
}

#[test]
fn missing_store_password_is_named() {
    let mut group = full_secrets();
    group.store_password = None;
    assert_no_group_key(secrets_from(group).unwrap_err(), "secrets", "store_password", "password");
}

#[test]
fn missing_proxy_address_is_named() {
    let mut group = full_secrets();
    group.proxy_address = None;
    assert_no_group_key(secrets_from(group).unwrap_err(), "secrets", "proxy_address", "0.0.0.0:1337");
}

#[test]
fn missing_metrics_address_is_named() {
    let mut group = full_secrets();
    group.metrics_address = None;
    assert_no_group_key(secrets_from(group).unwrap_err(), "secrets", "metrics_address", "0.0.0.0:8989");
}

#[test]
fn first_missing_secret_wins() {
    let group = SecretsGroup {
        store_address: text("10.1.2.3:6379"),
        store_password: None,
        proxy_address: None,
        metrics_address: None,
    };
    assert_no_group_key(secrets_from(group).unwrap_err(), "secrets", "store_password", "password");
}

#[test]
fn missing_service_ports_is_named() {
    let mut group = full_settings();
    group.service_ports = None;
    assert_no_group_key(
        settings_from(group).unwrap_err(),
        "proxy_settings",
        "service_ports",
        "[ 3444, 3445, 3446 ]",
    );
}

#[test]
fn missing_team_ips_is_named() {
    let mut group = full_settings();
    group.team_ips = None;
    assert_no_group_key(
        settings_from(group).unwrap_err(),
        "proxy_settings",
        "team_ips",
        "[ 10.0.12.23, 10.0.12.24, 10.0.12.25 ]",
    );
}

#[test]
fn missing_targets_is_named() {
    let mut group = full_settings();
    group.targets = None;
    assert_no_group_key(
        settings_from(group).unwrap_err(),
        "proxy_settings",
        "targets",
        "[ { team_ip: 127.0.0.1, port: 4554 } ]",
    );
}

#[test]
fn missing_key_is_reported_before_a_malformed_target() {
    let group = ProxySettingsGroup {
        service_ports: Some(vec![1]),
        team_ips: None,
        targets: Some(vec![TargetEntry { port: None, team_ip: None }]),
    };
    assert_no_group_key(
        settings_from(group).unwrap_err(),
        "proxy_settings",
        "team_ips",
        "[ 10.0.12.23, 10.0.12.24, 10.0.12.25 ]",
    );
}

#[test]
fn third_target_without_team_ip_fails_the_load() {
    let mut group = full_settings();
    group.targets = Some(vec![
        entry(3444, "10.0.12.23"),
        entry(3445, "10.0.12.24"),
        TargetEntry { port: Some(3446), team_ip: None },
    ]);
    assert_no_target_field(settings_from(group).unwrap_err());
}

#[test]
fn target_without_port_fails_the_load() {
    let mut group = full_settings();
    group.targets = Some(vec![
        TargetEntry { port: None, team_ip: text("10.0.12.23") },
        entry(3445, "10.0.12.24"),
    ]);
    assert_no_target_field(settings_from(group).unwrap_err());
}

#[test]
fn build_targets_keeps_order_or_returns_nothing() {
    let good = vec![entry(2, "b"), entry(1, "a")];
    assert_eq!(
        build_targets(&good).unwrap(),
        vec![
            Target { port: 2, team_ip: "b".to_string() },
            Target { port: 1, team_ip: "a".to_string() },
        ]
    );
    let bad = vec![entry(2, "b"), TargetEntry { port: Some(1), team_ip: None }, entry(3, "c")];
    assert_no_target_field(build_targets(&bad).unwrap_err());
    assert!(build_targets(&Vec::new()).unwrap().is_empty());
}

#[test]
fn build_target_needs_both_fields() {
    assert_eq!(
        build_target(&entry(4554, "127.0.0.1")).unwrap(),
        Target { port: 4554, team_ip: "127.0.0.1".to_string() }
    );
    assert_no_target_field(build_target(&TargetEntry { port: Some(1), team_ip: None }).unwrap_err());
    assert_no_target_field(build_target(&TargetEntry { port: None, team_ip: text("x") }).unwrap_err());
    assert_no_target_field(build_target(&TargetEntry { port: None, team_ip: None }).unwrap_err());
}

#[test]
fn require_group_passes_a_present_group_through() {
    assert_eq!(require_group(Some(7u8), "secrets").unwrap(), 7);
    match require_group::<u8>(None, "anything") {
        Err(ConfigError::NoKey { key }) => assert_eq!(key, "anything"),
        other => panic!("expected a missing top-level key, got {:?}", other),
    }
}

#[test]
fn require_key_passes_a_present_value_through() {
    assert_eq!(require_key(Some(vec![1u32, 2]), "g", "k", "e").unwrap(), vec![1, 2]);
    assert_no_group_key(require_key::<String>(None, "g", "k", "e").unwrap_err(), "g", "k", "e");
}

#[test]
fn unreadable_file_is_a_wrapped_io_error() {
    let cause = std::io::Error::new(std::io::ErrorKind::NotFound, "no such file");
    let res = build_secrets_config(Loaded::Unreadable(cause));
    match res {
        Err(ConfigError::Etc { description, error: ConfigCause::Io(e) }) => {
            assert_eq!(description, "couldn't open file `config.yaml`");
            assert_eq!(e.kind(), std::io::ErrorKind::NotFound);
            assert_eq!(e.to_string(), "no such file");
        }
        other => panic!("expected a wrapped I/O error, got {:?}", other),
    }
    let cause = std::io::Error::new(std::io::ErrorKind::PermissionDenied, "denied");
    let res = build_proxy_settings_config(Loaded::Unreadable(cause));
    match res {
        Err(ConfigError::Etc { description, error: ConfigCause::Io(e) }) => {
            assert_eq!(description, "couldn't open file `config.yaml`");
            assert_eq!(e.kind(), std::io::ErrorKind::PermissionDenied);
        }
        other => panic!("expected a wrapped I/O error, got {:?}", other),
    }
}

#[test]
fn unreadable_names_the_path() {
    let cause = std::io::Error::new(std::io::ErrorKind::NotFound, "gone");
    match unreadable("/etc/proxy/other.yaml", cause) {
        ConfigError::Etc { description, error: ConfigCause::Io(_) } => {
            assert_eq!(description, "couldn't open file `/etc/proxy/other.yaml`");
        }
        other => panic!("expected a wrapped I/O error, got {:?}", other),
    }
}

#[test]
fn malformed_document_is_a_wrapped_decode_error() {
    let cause = serde_yaml::from_str::<u32>("[ 1, 2").unwrap_err();
    let shown = cause.to_string();
    let res = build_secrets_config(Loaded::Malformed(cause));
    match res {
        Err(ConfigError::Etc { description, error: ConfigCause::Decode(e) }) => {
            assert_eq!(description, "couldn't read config values");
            assert_eq!(e.to_string(), shown);
        }
        other => panic!("expected a wrapped decode error, got {:?}", other),
    }
    let cause = serde_yaml::from_str::<Vec<u32>>("not a list").unwrap_err();
    match build_proxy_settings_config(Loaded::Malformed(cause)) {
        Err(ConfigError::Etc { description, error: ConfigCause::Decode(_) }) => {
            assert_eq!(description, "couldn't read config values");
        }
        other => panic!("expected a wrapped decode error, got {:?}", other),
    }
    let cause = serde_yaml::from_str::<u32>("{").unwrap_err();
    match malformed(cause) {
        ConfigError::Etc { description, error: ConfigCause::Decode(_) } => {
            assert_eq!(description, "couldn't read config values");
        }
        other => panic!("expected a wrapped decode error, got {:?}", other),
    }
}

#[test]
fn messages_carry_the_example() {
    let e = ConfigError::NoKey { key: "secrets".to_string() };
    assert_eq!(e.message(), "key `secrets` is missing");
    let mut group = full_secrets();
    group.store_address = None;
    assert_eq!(
        secrets_from(group).unwrap_err().message(),
        "key `store_address` is missing in group `secrets`, example: 127.0.0.1:2137"
    );
    let mut group = full_settings();
    group.targets = Some(vec![TargetEntry { port: None, team_ip: None }]);
    assert_eq!(
        settings_from(group).unwrap_err().message(),
        "list `targets` has a malformed element, example: { team_ip: 127.0.0.1, port: 4554 }"
    );
    let cause = std::io::Error::new(std::io::ErrorKind::NotFound, "gone");
    assert_eq!(unreadable(CONFIG_PATH, cause).message(), "couldn't open file `config.yaml`");
}
