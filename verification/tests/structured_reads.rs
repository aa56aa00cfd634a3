use qubit_config::config::Config;
use qubit_config::error::ConfigError;
use qubit_config::structured::check_unknown_properties;
use qubit_config::structured::join_ignored_path;
use qubit_config::structured::sorted_unique;
use qubit_config::structured::unknown_property_paths;
use qubit_config::structured::ConfigDeserializeError;
use qubit_config::structured::DeserializeRoot;
use qubit_value::ValueContainer;

#[test]
fn join_ignored_path_cases() {
    assert_eq!(join_ignored_path("", "..a.b"), "a.b");
    assert_eq!(join_ignored_path("http", ""), "http");
    assert_eq!(join_ignored_path("http", "..."), "http");
    assert_eq!(join_ignored_path("http", ".port"), "http.port");
}

#[test]
fn unknown_paths_sorted_and_unique() {
    let ignored = vec!["b".to_string(), "a".to_string(), "b".to_string(), ".c".to_string()];
    assert_eq!(sorted_unique(ignored.clone()), vec![".c", "a", "b"]);
    assert_eq!(unknown_property_paths("svc", ignored), vec!["svc.c", "svc.a", "svc.b"]);
}

#[test]
fn unknown_properties_error() {
    assert!(check_unknown_properties("svc", Vec::new()).is_ok());
    match check_unknown_properties("svc", vec!["z".to_string(), "y".to_string()]) {
        Err(ConfigError::UnknownProperties { paths }) => assert_eq!(paths, vec!["svc.y", "svc.z"]),
        other => panic!("unexpected result {other:?}"),
    }
}

#[test]
fn deserialize_root_choice() {
    let mut config = Config::new();
    config.set("a", ValueContainer::from(1)).unwrap();
    config.set("b.c", ValueContainer::from(1)).unwrap();
    config.set("d", ValueContainer::from(1)).unwrap();
    config.set("d.e", ValueContainer::from(1)).unwrap();
    assert!(matches!(config.deserialize_root(""), Ok(DeserializeRoot::Subtree)));
    assert!(matches!(config.deserialize_root("a"), Ok(DeserializeRoot::Exact(p)) if p.name() == "a"));
    assert!(matches!(config.deserialize_root("b"), Ok(DeserializeRoot::Subtree)));
    match config.deserialize_root("d") {
        Err(ConfigError::KeyConflict { path, existing, incoming }) => {
            assert_eq!(path, "d");
            assert_eq!(existing, "exact value");
            assert_eq!(incoming, "nested child keys");
        }
        _ => panic!("expected a key conflict"),
    }
    assert!(matches!(config.deserialize_root("x."), Err(ConfigError::InvalidKey { .. })));
}

#[test]
fn deserialize_error_conversion() {
    let error = ConfigDeserializeError::custom("bad".to_string());
    assert_eq!(error.diagnostic(), Some("bad"));
    match error.into_config_error("svc") {
        ConfigError::DeserializeError { path, message, source } => {
            assert_eq!(path, "svc");
            assert_eq!(message, "configuration value does not match the requested type");
            assert!(source.is_none());
        }
        other => panic!("unexpected error {other:?}"),
    }
    let error = ConfigDeserializeError::custom("bad".to_string()).with_path("svc.port".to_string());
    let error = error.with_path("other".to_string());
    match error.into_config_error("svc") {
        ConfigError::DeserializeError { path, .. } => assert_eq!(path, "svc.port"),
        other => panic!("unexpected error {other:?}"),
    }
    let error = ConfigDeserializeError::from_config(ConfigError::PropertyNotFound("p".to_string()));
    assert!(error.diagnostic().is_none());
    assert!(matches!(error.into_config_error("svc"), ConfigError::PropertyNotFound(p) if p == "p"));
}
