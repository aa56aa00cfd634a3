use qubit_config::config::Config;
use qubit_config::error::ConfigError;
use qubit_config::error::ConfigErrorKind;
use qubit_config::key::validate_config_key;
use qubit_config::key::validate_config_path;
use qubit_config::key::validate_non_empty_path;
use qubit_config::key::ConfigKey;
use qubit_config::key::ConfigPath;
use qubit_config::key::ConfigPathViolation;
use qubit_value::ValueContainer;

#[test]
fn key_parse_round_trip() {
    let key = ConfigKey::parse("server.port".to_string()).unwrap();
    assert_eq!(key.as_str(), "server.port");
    assert_eq!(key.clone().into_string(), "server.port");
    let error = ConfigKey::parse("server..port".to_string()).unwrap_err();
    assert_eq!(error.kind(), ConfigErrorKind::InvalidKey);
    assert!(ConfigKey::parse(String::new()).is_err());
}

#[test]
fn path_parse_accepts_root() {
    let root = ConfigPath::parse(String::new()).unwrap();
    assert_eq!(root.as_str(), "");
    let path = ConfigPath::parse("a.b".to_string()).unwrap();
    assert_eq!(path.into_string(), "a.b");
    let error = ConfigPath::parse("a.b.".to_string()).unwrap_err();
    assert_eq!(error.kind(), ConfigErrorKind::InvalidPath);
}

#[test]
fn validation_reports_first_defect() {
    assert_eq!(validate_config_key(""), Err(ConfigPathViolation::Empty));
    assert_eq!(validate_config_path(""), Ok(()));
    assert_eq!(validate_non_empty_path(""), Err(ConfigPathViolation::EmptySegment));
    assert_eq!(validate_config_key(".a."), Err(ConfigPathViolation::LeadingSeparator));
    assert_eq!(validate_config_key("a."), Err(ConfigPathViolation::TrailingSeparator));
    assert_eq!(validate_config_key("a..b"), Err(ConfigPathViolation::EmptySegment));
    assert_eq!(validate_config_key("a.b.c"), Ok(()));
}

#[test]
fn violation_messages() {
    assert_eq!(ConfigPathViolation::Empty.message(), "the key is empty");
    assert_eq!(
        ConfigPathViolation::EmptySegment.message(),
        "the path contains an empty segment"
    );
}

fn sample() -> Config {
    let mut config = Config::new();
    config.set("http", ValueContainer::from(1)).unwrap();
    config.set("http.host", ValueContainer::from("localhost")).unwrap();
    config.set("http.port", ValueContainer::from(8080)).unwrap();
    config.set("http.tls.enabled", ValueContainer::from(true)).unwrap();
    config.set("db.host", ValueContainer::from("dbhost")).unwrap();
    config
}

#[test]
fn section_names_are_relative() {
    let config = sample();
    let http = config.section("http").unwrap();
    assert_eq!(http.path(), "http");
    assert!(http.contains("host"));
    assert!(!http.contains("http.host"));
    assert!(!http.contains(""));
    let port = http.get_property("port").unwrap();
    assert_eq!(port.name(), "http.port");
    assert_eq!(http.keys(), vec!["host", "port", "tls.enabled"]);
    assert_eq!(http.len(), 3);
    assert!(!http.is_empty());
    assert_eq!(http.resolve_key("port"), "http.port");
    assert_eq!(http.resolve_key(""), "http");
}

#[test]
fn root_section_sees_everything() {
    let config = sample();
    let root = config.section("").unwrap();
    assert_eq!(root.len(), config.len());
    assert_eq!(root.keys(), config.keys());
    assert_eq!(root.resolve_key("a"), "a");
}

#[test]
fn nested_sections() {
    let config = sample();
    let http = config.section("http").unwrap();
    let tls = http.section(".tls.");
    assert_eq!(tls.path(), "http.tls");
    assert!(tls.contains("enabled"));
    assert_eq!(http.section("").path(), "http");
    assert!(http.contains_section("tls"));
    assert!(!http.contains_section("host"));
    assert!(http.contains_key_prefix("t"));
    assert!(!http.contains_key_prefix("x"));
}

#[test]
fn section_requires_canonical_path() {
    let config = sample();
    assert!(matches!(config.section("a..b"), Err(ConfigError::InvalidPath { .. })));
    assert!(config.section_if_present("http").unwrap().is_some());
    assert!(config.section_if_present("http.port").unwrap().is_none());
    assert!(config.section_if_present("missing").unwrap().is_none());
}

#[test]
fn section_iter_prefix() {
    let config = sample();
    let http = config.section("http").unwrap();
    let entries = http.iter_prefix("t");
    assert_eq!(entries.len(), 1);
    assert_eq!(entries[0].0, "tls.enabled");
    assert_eq!(entries[0].1.name(), "http.tls.enabled");
    assert_eq!(http.iter().len(), 3);
}

#[test]
fn missing_property_error_uses_full_key() {
    let config = sample();
    let http = config.section("http").unwrap();
    match http.missing_property_error("nope") {
        ConfigError::PropertyNotFound(name) => assert_eq!(name, "http.nope"),
        other => panic!("unexpected error {other:?}"),
    }
    assert_eq!(http.visible_property_key(""), None);
    assert_eq!(http.visible_property_key("x"), Some("http.x".to_string()));
}

#[test]
fn section_matches_stripped_subconfig() {
    let config = sample();
    let http = config.section("http").unwrap();
    let sub = config.subconfig("http", true).unwrap();
    assert_eq!(http.keys(), sub.keys());
}

#[test]
fn section_presence_matches_visibility() {
    let config = sample();
    for path in ["http", "http.tls", "http.port", "db", "missing", ""] {
        let present = config.contains_section(path).unwrap();
        let visible = !config.section(path).unwrap().is_empty();
        assert_eq!(present, visible, "path {path}");
    }
}

#[test]
fn section_paths_are_trimmed() {
    let config = sample();
    let root = config.section("").unwrap();
    assert_eq!(root.section("..http..").path(), "http");
    let http = config.section("http").unwrap();
    assert_eq!(http.section("...").path(), "http");
    assert_eq!(http.section(".tls.").path(), "http.tls");
    let keys = config.keys();
    let names: Vec<String> = config.iter().iter().map(|p| p.name().to_string()).collect();
    assert_eq!(keys, names);
}
