use qubit_config::config::Config;
use qubit_config::property::Property;
use qubit_config::wire::ConfigWire;
use qubit_config::wire::ConfigWireLimitExceeded;
use qubit_config::wire::ConfigWireLimitKind;
use qubit_config::wire::ConfigWireLimits;
use qubit_value::ValueContainer;

fn entry(key: &str, name: &str, value: i32) -> (String, Property) {
    (key.to_string(), Property::with_value(name.to_string(), ValueContainer::from(value)))
}

#[test]
fn wire_parts_rebuild_config() {
    let config = Config::from_wire_parts(
        Some("saved".to_string()),
        vec![entry("b", "b", 2), entry("a", "a", 1)],
    )
    .unwrap();
    assert_eq!(config.keys(), vec!["a", "b"]);
    assert_eq!(config.description(), Some("saved"));
}

#[test]
fn wire_parts_report_least_invalid_key() {
    let error = Config::from_wire_parts(None, vec![entry("z.", "z.", 1), entry("a..b", "a..b", 1)])
        .unwrap_err();
    assert_eq!(
        error,
        "Invalid configuration key 'a..b': the path contains an empty segment"
    );
}

#[test]
fn wire_parts_report_least_mismatch() {
    let error = Config::from_wire_parts(
        None,
        vec![entry("y", "q", 1), entry("x", "p", 1), entry("w", "w", 1)],
    )
    .unwrap_err();
    assert_eq!(error, "configuration map key 'x' does not match property name 'p'");
}

#[test]
fn persisted_round_trip() {
    let mut config = Config::new();
    config.set("a.b", ValueContainer::from(1)).unwrap();
    config.set("c", ValueContainer::from(2)).unwrap();
    let entries: Vec<(String, Property)> = config
        .iter()
        .iter()
        .map(|p| (p.name().to_string(), p.clone()))
        .collect();
    let rebuilt = Config::from_wire_parts(None, entries).unwrap();
    assert_eq!(rebuilt.keys(), config.keys());
}

#[test]
fn versioned_documents_reject_read_options() {
    let error = ConfigWire::from_fields(Some(1), None, Vec::new(), true).err().unwrap();
    assert_eq!(error, "read_options is only accepted in legacy unversioned config wire");
    assert!(matches!(
        ConfigWire::from_fields(None, None, Vec::new(), true),
        Ok(ConfigWire::Legacy { .. })
    ));
    assert!(matches!(
        ConfigWire::from_fields(Some(1), None, Vec::new(), false),
        Ok(ConfigWire::V1 { version: 1, .. })
    ));
}

#[test]
fn unsupported_version_is_rejected() {
    let wire = ConfigWire::from_fields(Some(2), None, vec![entry("a", "a", 1)], false).ok().unwrap();
    assert_eq!(wire.into_config().err().unwrap(), "unsupported config wire version 2; expected 1");
    let wire = ConfigWire::from_fields(Some(1), None, vec![entry("a", "a", 1)], false).ok().unwrap();
    assert_eq!(wire.into_config().unwrap().keys(), vec!["a"]);
    let legacy = ConfigWire::from_fields(None, None, vec![entry("a", "a", 1)], false).ok().unwrap();
    assert_eq!(legacy.into_config().unwrap().len(), 1);
}

#[test]
fn default_limits() {
    let limits = ConfigWireLimits::default();
    assert_eq!(limits.max_properties(), 4096);
    assert_eq!(limits.max_property_key_bytes(), 256);
    let limits = ConfigWireLimits::builder().max_properties(1).max_property_key_bytes(3).build();
    let copy = ConfigWireLimits::builder_from(&limits).build();
    assert_eq!(copy, limits);
}

#[test]
fn limits_check_count_before_keys() {
    let mut config = Config::new();
    config.set("abcdef", ValueContainer::from(1)).unwrap();
    config.set("b", ValueContainer::from(1)).unwrap();
    let limits = ConfigWireLimits::builder().max_properties(1).max_property_key_bytes(2).build();
    assert_eq!(
        limits.check_config(&config),
        Err(ConfigWireLimitExceeded { kind: ConfigWireLimitKind::Properties, value: 2, maximum: 1 })
    );
    let limits = ConfigWireLimits::builder().max_properties(2).max_property_key_bytes(2).build();
    assert_eq!(
        limits.check_config(&config),
        Err(ConfigWireLimitExceeded {
            kind: ConfigWireLimitKind::PropertyKeyBytes,
            value: 6,
            maximum: 2
        })
    );
    let limits = ConfigWireLimits::builder().max_properties(2).max_property_key_bytes(6).build();
    assert_eq!(limits.check_config(&config), Ok(()));
}

#[test]
fn key_bytes_count_utf8() {
    let entries = vec![entry("é", "é", 1)];
    let limits = ConfigWireLimits::builder().max_property_key_bytes(1).build();
    assert_eq!(
        limits.check_entries(&entries),
        Err(ConfigWireLimitExceeded {
            kind: ConfigWireLimitKind::PropertyKeyBytes,
            value: 2,
            maximum: 1
        })
    );
}
