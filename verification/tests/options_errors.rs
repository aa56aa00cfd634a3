use qubit_config::configured::Configurable;
use qubit_config::configured::Configured;
use qubit_config::config::Config;
use qubit_config::error::ConfigError;
use qubit_config::error::ConfigErrorKind;
use qubit_config::options::InterpolationSources;
use qubit_config::options::ReadPolicy;
use qubit_config::options::VariableSubstitutionOptions;
use qubit_value::ValueContainer;

#[test]
fn substitution_defaults() {
    let options = VariableSubstitutionOptions::default();
    assert!(options.is_enabled());
    assert!(!options.is_environment_fallback_enabled());
    assert_eq!(options.max_depth(), 64);
    assert_eq!(options.max_expansions(), 4096);
    assert_eq!(options.max_output_bytes(), 1048576);
}

#[test]
fn substitution_setters() {
    let options = VariableSubstitutionOptions::default()
        .with_enabled(false)
        .with_environment_fallback_enabled(true)
        .with_max_depth(3)
        .with_max_expansions(4)
        .with_max_output_bytes(5);
    assert!(!options.is_enabled());
    assert!(options.is_environment_fallback_enabled());
    assert_eq!(options.max_depth(), 3);
    assert_eq!(options.max_expansions(), 4);
    assert_eq!(options.max_output_bytes(), 5);
}

#[test]
fn read_policy_defaults() {
    let policy = ReadPolicy::default();
    assert_eq!(policy.interpolation_sources(), InterpolationSources::ConfigOnly);
    assert_eq!(policy.max_interpolation_depth(), 64);
    assert_eq!(InterpolationSources::default(), InterpolationSources::ConfigOnly);
    let policy = policy.with_interpolation_sources(InterpolationSources::ConfigThenEnv);
    assert_eq!(policy.interpolation_sources(), InterpolationSources::ConfigThenEnv);
}

#[test]
fn config_read_policy_can_be_replaced() {
    let mut config = Config::new();
    config.set_default_read_policy(ReadPolicy::default().with_max_interpolation_depth(7));
    assert_eq!(config.default_read_policy().max_interpolation_depth(), 7);
}

#[test]
fn error_kinds_and_paths() {
    let error = ConfigError::PropertyNotFound("a.b".to_string());
    assert_eq!(error.kind(), ConfigErrorKind::PropertyNotFound);
    assert_eq!(error.path(), Some("a.b"));
    let error = ConfigError::MergeError("x".to_string());
    assert_eq!(error.kind(), ConfigErrorKind::Merge);
    assert_eq!(error.path(), None);
    let error = ConfigError::PropertyCandidatesNotFound { paths: vec!["a".to_string(), "b".to_string()] };
    assert_eq!(error.candidate_paths().unwrap().len(), 2);
}

#[test]
fn configured_holds_config() {
    let mut holder = Configured::new();
    assert!(holder.config().is_empty());
    let mut config = Config::new();
    config.set("a", ValueContainer::from(1)).unwrap();
    holder.set_config(config);
    assert_eq!(holder.config().keys(), vec!["a"]);
    holder.config_mut().set("b", ValueContainer::from(2)).unwrap();
    assert_eq!(holder.config().len(), 2);
    let copy = holder.clone();
    assert_eq!(copy.config().len(), 2);
    let other = Configured::with_config(Config::new());
    assert!(other.config().is_empty());
    assert!(Configured::default().config().is_empty());
}

#[test]
fn error_messages() {
    assert_eq!(
        ConfigError::PropertyNotFound("a.b".to_string()).message(),
        "Property not found: a.b"
    );
    assert_eq!(
        ConfigError::PropertyIsFinal("x".to_string()).message(),
        "Property 'x' is final and cannot be overridden"
    );
    assert_eq!(
        ConfigError::SubstitutionDepthExceeded { path: "p".to_string(), max_depth: 64 }.message(),
        "Variable substitution at 'p' exceeded maximum depth: 64"
    );
    assert_eq!(
        ConfigError::SubstitutionCycle {
            path: "a".to_string(),
            chain: vec!["a".to_string(), "b".to_string(), "a".to_string()]
        }
        .message(),
        "Variable substitution cycle at 'a': a -> b -> a"
    );
    assert_eq!(
        ConfigError::PropertyCandidatesNotFound { paths: vec!["x".to_string(), "y".to_string()] }
            .message(),
        "None of the candidate properties was found: x, y"
    );
    assert_eq!(
        ConfigError::KeyConflict {
            path: "d".to_string(),
            existing: "exact value".to_string(),
            incoming: "nested child keys".to_string()
        }
        .message(),
        "Configuration key conflict at 'd': existing exact value, incoming nested child keys"
    );
    let error = ConfigError::TypeMismatch {
        key: "port".to_string(),
        expected: qubit_datatype::DataType::Int32,
        actual: qubit_datatype::DataType::String,
    };
    assert!(error.message().starts_with("Type mismatch at 'port': expected "));
    let error = ConfigError::IoError(std::io::Error::new(std::io::ErrorKind::Other, "boom"));
    assert_eq!(error.message(), "IO error: boom");
    let invalid = qubit_config::ConfigKey::parse("a..b".to_string()).unwrap_err();
    assert_eq!(
        invalid.message(),
        "Invalid configuration key 'a..b': the path contains an empty segment"
    );
}

#[test]
fn env_friendly_read_options_trim_and_treat_blank_as_missing() {
    let options = qubit_config::ConfigReadOptions::env_friendly();
    assert!(options.conversion_options().string().trim());
    assert_eq!(
        options.conversion_options().string().blank_string_policy(),
        qubit_datatype::BlankStringPolicy::TreatAsMissing
    );
    assert!(options.substitution().is_enabled());
    assert!(!options.substitution().is_environment_fallback_enabled());
    let default = qubit_config::ConfigReadOptions::default();
    assert!(!default.conversion_options().string().trim());
}

#[test]
fn env_friendly_policies_trim_and_defaults_do_not() {
    let policy = ReadPolicy::env_friendly();
    assert!(policy.conversion_options().string().trim());
    assert_eq!(
        policy.conversion_options().string().blank_string_policy(),
        qubit_datatype::BlankStringPolicy::TreatAsMissing
    );
    assert_eq!(policy.max_interpolation_depth(), 64);
    assert!(!ReadPolicy::default().conversion_options().string().trim());
    assert!(!ReadPolicy::config_only().conversion_options().string().trim());
    let options = qubit_config::ReadOptions::env_friendly();
    assert!(options.conversion_options().string().trim());
    assert!(options.is_environment_fallback_enabled());
    assert!(!qubit_config::ReadOptions::default().conversion_options().string().trim());
    assert!(!Config::new().default_read_policy().conversion_options().string().trim());
}
