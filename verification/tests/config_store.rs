use qubit_config::config::Config;
use qubit_config::error::ConfigError;
use qubit_config::error::ConfigErrorKind;
use qubit_config::key::ConfigPathViolation;
use qubit_config::property::Property;
use qubit_datatype::DataType;
use qubit_value::ValueContainer;

fn ival(v: i32) -> ValueContainer {
    ValueContainer::from(v)
}

fn value_of(config: &Config, name: &str) -> i32 {
    config.get_property(name).unwrap().unwrap().value().get_first::<i32>().unwrap()
}

#[test]
fn new_config_is_empty() {
    let config = Config::new();
    assert!(config.is_empty());
    assert_eq!(config.len(), 0);
    assert!(config.description().is_none());
    let config = Config::default();
    assert!(config.is_empty());
}

#[test]
fn builder_sets_description() {
    let config = Config::builder().description("service settings").build();
    assert_eq!(config.description(), Some("service settings"));
    assert!(config.is_empty());
}

#[test]
fn set_then_contains() {
    let mut config = Config::new();
    config.set("port", ival(8080)).unwrap();
    assert!(config.contains("port").unwrap());
    assert!(!config.contains("host").unwrap());
    assert_eq!(value_of(&config, "port"), 8080);
}

#[test]
fn read_after_set_and_overwrite() {
    let mut config = Config::new();
    config.set("server.port", ival(1)).unwrap();
    config.set("server.host", ValueContainer::from("localhost")).unwrap();
    config.set("server.port", ival(2)).unwrap();
    assert_eq!(value_of(&config, "server.port"), 2);
    assert_eq!(config.len(), 2);
    let host = config.get_property("server.host").unwrap().unwrap();
    assert_eq!(host.value().get_first::<String>().unwrap(), "localhost");
    assert_eq!(host.name(), "server.host");
}

#[test]
fn set_keeps_description_of_existing_property() {
    let mut config = Config::new();
    let mut property = Property::with_value("a".to_string(), ival(1));
    property.set_description(Some("the answer".to_string()));
    config.insert_property("a", property).unwrap();
    config.set("a", ival(42)).unwrap();
    let stored = config.get_property("a").unwrap().unwrap();
    assert_eq!(stored.description(), Some("the answer"));
    assert_eq!(value_of(&config, "a"), 42);
}

#[test]
fn remove_returns_property() {
    let mut config = Config::new();
    config.set("port", ival(8080)).unwrap();
    let removed = config.remove("port").unwrap();
    assert!(removed.is_some());
    assert_eq!(removed.unwrap().name(), "port");
    assert!(!config.contains("port").unwrap());
    assert!(config.remove("port").unwrap().is_none());
}

#[test]
fn remove_undoes_new_set() {
    let mut config = Config::new();
    config.set("a", ival(1)).unwrap();
    config.set("b", ival(2)).unwrap();
    let before = config.keys();
    config.set("c", ival(3)).unwrap();
    config.remove("c").unwrap();
    assert_eq!(config.keys(), before);
    assert_eq!(value_of(&config, "a"), 1);
    assert_eq!(value_of(&config, "b"), 2);
}

#[test]
fn clear_removes_everything() {
    let mut config = Config::new();
    config.set("port", ival(8080)).unwrap();
    config.set("host", ValueContainer::from("localhost")).unwrap();
    config.clear().unwrap();
    assert!(config.is_empty());
}

#[test]
fn keys_are_sorted() {
    let mut config = Config::new();
    config.set("port", ival(1)).unwrap();
    config.set("host", ival(2)).unwrap();
    config.set("db.url", ival(3)).unwrap();
    config.set("a.b.c", ival(4)).unwrap();
    assert_eq!(config.keys(), vec!["a.b.c", "db.url", "host", "port"]);
    let names: Vec<&str> = config.iter().iter().map(|p| p.name()).collect();
    assert_eq!(names, vec!["a.b.c", "db.url", "host", "port"]);
}

#[test]
fn invalid_keys_are_rejected() {
    let mut config = Config::new();
    for (key, violation) in [
        ("", ConfigPathViolation::Empty),
        (".a", ConfigPathViolation::LeadingSeparator),
        ("a.", ConfigPathViolation::TrailingSeparator),
        ("a..b", ConfigPathViolation::EmptySegment),
    ] {
        match config.set(key, ival(1)) {
            Err(ConfigError::InvalidKey { key: k, violation: v }) => {
                assert_eq!(k, key);
                assert_eq!(v, violation);
            }
            other => panic!("unexpected result {other:?}"),
        }
        assert_eq!(config.contains(key).unwrap_err().kind(), ConfigErrorKind::InvalidKey);
    }
    assert!(config.is_empty());
}

#[test]
fn final_property_cannot_be_changed() {
    let mut config = Config::new();
    config.set("locked", ival(1)).unwrap();
    config.set_final("locked", true).unwrap();
    assert!(matches!(config.set("locked", ival(2)), Err(ConfigError::PropertyIsFinal(n)) if n == "locked"));
    assert!(matches!(config.add("locked", ival(2)), Err(ConfigError::PropertyIsFinal(_))));
    assert!(matches!(config.remove("locked"), Err(ConfigError::PropertyIsFinal(_))));
    assert!(matches!(config.set_null("locked", DataType::String), Err(ConfigError::PropertyIsFinal(_))));
    assert!(matches!(
        config.insert_property("locked", Property::with_value("locked".to_string(), ival(3))),
        Err(ConfigError::PropertyIsFinal(_))
    ));
    assert!(matches!(config.set_final("locked", false), Err(ConfigError::PropertyIsFinal(_))));
    config.set_final("locked", true).unwrap();
    assert_eq!(value_of(&config, "locked"), 1);
    assert!(config.get_property("locked").unwrap().unwrap().is_final());
}

#[test]
fn clear_reports_least_final_key() {
    let mut config = Config::new();
    config.set("b", ival(1)).unwrap();
    config.set("c", ival(1)).unwrap();
    config.set("a", ival(1)).unwrap();
    config.set_final("c", true).unwrap();
    config.set_final("b", true).unwrap();
    match config.clear() {
        Err(ConfigError::PropertyIsFinal(name)) => assert_eq!(name, "b"),
        other => panic!("unexpected result {other:?}"),
    }
    assert_eq!(config.len(), 3);
}

#[test]
fn set_final_on_missing_property() {
    let mut config = Config::new();
    assert!(matches!(config.set_final("missing", true), Err(ConfigError::PropertyNotFound(n)) if n == "missing"));
}

#[test]
fn add_appends_values() {
    let mut config = Config::new();
    config.set("port", ival(8080)).unwrap();
    config.add("port", ival(8081)).unwrap();
    config.add("port", ValueContainer::from(vec![8082, 8083])).unwrap();
    config.add("port", ValueContainer::from(vec![8084, 8085])).unwrap();
    let ports: Vec<i32> = config.get_property("port").unwrap().unwrap().value().get_list().unwrap();
    assert_eq!(ports, vec![8080, 8081, 8082, 8083, 8084, 8085]);
}

#[test]
fn add_creates_missing_property() {
    let mut config = Config::new();
    config.add("fresh", ival(7)).unwrap();
    assert_eq!(value_of(&config, "fresh"), 7);
}

#[test]
fn add_of_another_type_fails_with_keyed_error() {
    let mut config = Config::new();
    config.set("port", ival(8080)).unwrap();
    let error = config.add("port", ValueContainer::from("text")).unwrap_err();
    assert_eq!(error.kind(), ConfigErrorKind::TypeMismatch);
    assert_eq!(error.path(), Some("port"));
}

#[test]
fn insert_property_requires_matching_name() {
    let mut config = Config::new();
    let error = config
        .insert_property("a", Property::with_value("b".to_string(), ival(1)))
        .unwrap_err();
    match error {
        ConfigError::MergeError(message) => {
            assert_eq!(message, "Property name mismatch: key 'a' != property 'b'")
        }
        other => panic!("unexpected error {other:?}"),
    }
    config.insert_property("b", Property::with_value("b".to_string(), ival(1))).unwrap();
    assert_eq!(value_of(&config, "b"), 1);
}

#[test]
fn set_null_stores_empty_value() {
    let mut config = Config::new();
    config.set_null("nothing", DataType::String).unwrap();
    let property = config.get_property("nothing").unwrap().unwrap();
    assert!(property.is_empty());
    assert_eq!(property.count(), 0);
}

#[test]
fn get_property_by_name_reports_missing() {
    let config = Config::new();
    assert!(matches!(config.get_property_by_name("x"), Err(ConfigError::PropertyNotFound(n)) if n == "x"));
    assert!(matches!(config.get_property_by_name("x."), Err(ConfigError::InvalidKey { .. })));
}

#[test]
fn merge_prefers_incoming_properties() {
    let mut config = Config::new();
    config.set("a", ival(1)).unwrap();
    config.set("b", ival(2)).unwrap();
    let mut layer = Config::builder().description("layer").build();
    layer.set("b", ival(20)).unwrap();
    layer.set("c", ival(30)).unwrap();
    config.merge_properties(layer).unwrap();
    assert_eq!(config.keys(), vec!["a", "b", "c"]);
    assert_eq!(value_of(&config, "a"), 1);
    assert_eq!(value_of(&config, "b"), 20);
    assert_eq!(value_of(&config, "c"), 30);
    assert!(config.description().is_none());
}

#[test]
fn merge_into_empty_gives_incoming() {
    let mut config = Config::new();
    let mut layer = Config::new();
    layer.set("x.y", ival(5)).unwrap();
    config.merge_properties(layer).unwrap();
    assert_eq!(config.keys(), vec!["x.y"]);
}

#[test]
fn merge_is_transactional() {
    let mut config = Config::new();
    config.set("a", ival(1)).unwrap();
    config.set("d", ival(4)).unwrap();
    config.set("c", ival(3)).unwrap();
    config.set_final("d", true).unwrap();
    config.set_final("c", true).unwrap();
    let mut layer = Config::new();
    layer.set("a", ival(10)).unwrap();
    layer.set("c", ival(30)).unwrap();
    layer.set("d", ival(40)).unwrap();
    match config.merge_properties(layer) {
        Err(ConfigError::PropertyIsFinal(name)) => assert_eq!(name, "c"),
        other => panic!("unexpected result {other:?}"),
    }
    assert_eq!(value_of(&config, "a"), 1);
    assert_eq!(value_of(&config, "c"), 3);
}

#[test]
fn iter_prefix_and_contains_key_prefix() {
    let mut config = Config::new();
    config.set("http.host", ValueContainer::from("localhost")).unwrap();
    config.set("http.port", ival(8080)).unwrap();
    config.set("db.host", ValueContainer::from("dbhost")).unwrap();
    let http = config.iter_prefix("http.");
    assert_eq!(http.len(), 2);
    assert_eq!(http[0].name(), "http.host");
    assert_eq!(http[1].name(), "http.port");
    assert!(config.contains_key_prefix("http."));
    assert!(!config.contains_key_prefix("db2."));
}

#[test]
fn contains_section_ignores_exact_and_siblings() {
    let mut config = Config::new();
    config.set("proxy", ival(1)).unwrap();
    config.set("proxy2.host", ival(1)).unwrap();
    assert!(!config.contains_section("proxy").unwrap());
    config.set("proxy.host", ival(1)).unwrap();
    assert!(config.contains_section("proxy").unwrap());
    assert!(config.contains_section("").unwrap());
    assert!(!Config::new().contains_section("").unwrap());
    assert!(matches!(config.contains_section(".proxy"), Err(ConfigError::InvalidPath { .. })));
}

#[test]
fn subconfig_strips_prefix() {
    let mut config = Config::new();
    config.set("http.host", ValueContainer::from("localhost")).unwrap();
    config.set("http.port", ival(8080)).unwrap();
    config.set("http", ival(1)).unwrap();
    config.set("db.host", ValueContainer::from("dbhost")).unwrap();
    let http = config.subconfig("http", true).unwrap();
    assert_eq!(http.keys(), vec!["host", "port"]);
    assert_eq!(http.get_property("port").unwrap().unwrap().name(), "port");
    assert_eq!(value_of(&http, "port"), 8080);
    let kept = config.subconfig("http", false).unwrap();
    assert_eq!(kept.keys(), vec!["http.host", "http.port"]);
    let all = config.subconfig("", true).unwrap();
    assert_eq!(all.keys(), config.keys());
    assert!(matches!(config.subconfig("http.", true), Err(ConfigError::InvalidPath { .. })));
}

#[test]
fn subconfig_keeps_description() {
    let mut config = Config::builder().description("root").build();
    config.set("a.b", ival(1)).unwrap();
    let sub = config.subconfig("a", true).unwrap();
    assert_eq!(sub.description(), Some("root"));
}

#[test]
fn clone_copies_properties() {
    let mut config = Config::new();
    config.set("a", ival(1)).unwrap();
    let copy = config.clone();
    config.set("a", ival(2)).unwrap();
    assert_eq!(value_of(&copy, "a"), 1);
    assert_eq!(value_of(&config, "a"), 2);
}

#[test]
fn description_can_be_replaced() {
    let mut config = Config::new();
    config.set_description(Some("d".to_string()));
    assert_eq!(config.description(), Some("d"));
    config.set_description(None);
    assert!(config.description().is_none());
}

#[test]
fn ensure_helpers() {
    let mut config = Config::new();
    config.set("a", ival(1)).unwrap();
    assert!(config.ensure_property_not_final("a").is_ok());
    assert!(config.ensure_property_not_final("missing").is_ok());
    assert!(config.ensure_no_final_properties().is_ok());
    config.set_final("a", true).unwrap();
    assert!(config.ensure_property_not_final("a").is_err());
    assert!(matches!(config.ensure_no_final_properties(), Err(ConfigError::PropertyIsFinal(n)) if n == "a"));
}
