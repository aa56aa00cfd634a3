use qubit_config::error::ConfigError;
use qubit_config::error::ConfigErrorKind;
use qubit_config::options::ReadPolicy;
use qubit_config::property::Property;
use qubit_datatype::BlankStringPolicy;
use qubit_datatype::ConversionPolicy;
use qubit_datatype::DataConversionError;
use qubit_datatype::DataType;
use qubit_value::ValueContainer;
use qubit_value::ValueError;

#[test]
fn single_candidate_path() {
    let error = ConfigError::PropertyNotFound("a.b".to_string());
    assert_eq!(error.candidate_paths().unwrap(), &["a.b".to_string()][..]);
    assert!(ConfigError::Other("x".to_string()).candidate_paths().is_none());
}

#[test]
fn value_errors_are_keyed_by_shape() {
    let mismatch = ValueError::TypeMismatch { expected: DataType::Int32, actual: DataType::String };
    match ConfigError::from_value_error("port", mismatch) {
        ConfigError::TypeMismatch { key, expected, actual } => {
            assert_eq!(key, "port");
            assert_eq!(expected, DataType::Int32);
            assert_eq!(actual, DataType::String);
        }
        other => panic!("unexpected error {other:?}"),
    }
}

#[test]
fn missing_conversion_becomes_no_value() {
    let missing = DataConversionError::missing(DataType::String, DataType::Int32);
    let error = ConfigError::from_data_conversion_error("port", missing);
    assert_eq!(error.kind(), ConfigErrorKind::PropertyHasNoValue);
    assert_eq!(error.path(), Some("port"));
}

#[test]
fn property_value_type_and_clear() {
    let mut property = Property::with_value("n".to_string(), ValueContainer::from(vec![1, 2, 3]));
    assert_eq!(property.data_type(), DataType::Int32);
    assert_eq!(property.count(), 3);
    property.clear();
    assert!(property.is_empty());
    assert_eq!(property.data_type(), DataType::Int32);
    let fresh = Property::new("m".to_string());
    assert!(fresh.is_empty());
    assert_eq!(fresh.data_type(), DataType::Int32);
}

#[test]
fn policy_builders_replace_one_setting() {
    let policy = ReadPolicy::default().with_blank_string_policy(BlankStringPolicy::TreatAsMissing);
    let expected = ConversionPolicy::default()
        .into_builder()
        .blank_string_policy(BlankStringPolicy::TreatAsMissing)
        .build();
    assert_eq!(policy.conversion_options(), &expected);
    assert_ne!(policy.conversion_options(), &ConversionPolicy::default());
}
