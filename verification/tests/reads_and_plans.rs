use qubit_config::admission::NodeKind;
use qubit_config::config::Config;
use qubit_config::deserialize_plan::any_visit;
use qubit_config::deserialize_plan::enum_visit;
use qubit_config::deserialize_plan::AnyVisit;
use qubit_config::deserialize_plan::EnumRefusal;
use qubit_config::deserialize_plan::EnumVisit;
use qubit_config::deserialize_plan::JsonShape;
use qubit_config::deserialize_plan::Unexpected;
use qubit_config::input_budget::AdmissionLimits;
use qubit_config::input_budget::InputBudget;
use qubit_config::input_budget::Visit;
use qubit_config::missing::is_effectively_missing;
use qubit_config::property::Property;
use qubit_config::ReadPolicy;
use qubit_datatype::DataType;
use qubit_value::ValueContainer;

#[test]
fn is_unset_reports_existing_unset_properties() {
    let mut config = Config::new();
    config.set_null("nullable", DataType::String).unwrap();
    config.set("port", ValueContainer::from(8080i32)).unwrap();
    assert!(config.is_unset("nullable").unwrap());
    assert!(!config.is_unset("missing").unwrap());
    assert!(!config.is_unset("port").unwrap());
    assert!(config.is_unset("bad..key").is_err());
}

#[test]
fn blank_strings_are_missing_only_under_env_friendly_rules() {
    let blank = Property::with_value("name".to_string(), ValueContainer::from("   ".to_string()));
    assert!(!is_effectively_missing(&blank, &ReadPolicy::default()));
    assert!(is_effectively_missing(&blank, &ReadPolicy::env_friendly()));
    let unset = Property::new("name".to_string());
    assert!(is_effectively_missing(&unset, &ReadPolicy::default()));
    let text = Property::with_value("name".to_string(), ValueContainer::from("x".to_string()));
    assert!(!is_effectively_missing(&text, &ReadPolicy::env_friendly()));
}

fn limits(max_number_bytes: u64) -> AdmissionLimits {
    AdmissionLimits {
        input_bytes: 100,
        payload_bytes: 1_000,
        max_text_bytes: 100,
        max_depth: 16,
        max_nodes: 100,
        max_sequence_items: 100,
        max_map_entries: 100,
        max_key_bytes: 64,
        max_string_bytes: 64,
        max_number_bytes,
    }
}

fn visit() -> Visit {
    Visit {
        path: "n".to_string(),
        source_index: None,
        data_type: DataType::Int64,
        depth: 1,
        key_bytes: None,
        overlay_bytes: None,
        node: NodeKind::JsonNumber,
        formatted_bytes: 0,
    }
}

#[test]
fn integers_are_measured_by_their_decimal_text() {
    let mut budget = InputBudget::new(&limits(3));
    assert!(budget.admit_signed(-12, &visit()).is_ok());
    assert!(budget.admit_signed(-123, &visit()).is_err());
    assert!(budget.admit_unsigned(999, &visit()).is_ok());
    assert!(budget.admit_unsigned(1000, &visit()).is_err());
}

#[test]
fn self_describing_reads_visit_by_shape() {
    assert_eq!(any_visit(JsonShape::Null), AnyVisit::Unit);
    assert_eq!(any_visit(JsonShape::Bool(false)), AnyVisit::Bool(false));
    assert_eq!(any_visit(JsonShape::Int64(-1)), AnyVisit::I64(-1));
    assert_eq!(any_visit(JsonShape::UInt64(u64::MAX)), AnyVisit::U64(u64::MAX));
    assert_eq!(any_visit(JsonShape::Float), AnyVisit::F64);
    assert_eq!(any_visit(JsonShape::String), AnyVisit::ConvertedString);
    assert_eq!(any_visit(JsonShape::Array), AnyVisit::Sequence);
    assert_eq!(any_visit(JsonShape::Object { entries: 2 }), AnyVisit::Mapping);
}

#[test]
fn enums_are_read_from_strings_and_single_entry_objects() {
    assert_eq!(enum_visit(JsonShape::String), Ok(EnumVisit::Named));
    assert_eq!(enum_visit(JsonShape::Object { entries: 1 }), Ok(EnumVisit::Tagged));
    assert_eq!(enum_visit(JsonShape::Object { entries: 0 }), Err(EnumRefusal::NotOneVariant));
    assert_eq!(enum_visit(JsonShape::Object { entries: 2 }), Err(EnumRefusal::NotOneVariant));
    assert_eq!(
        enum_visit(JsonShape::Int64(3)),
        Err(EnumRefusal::InvalidType(Unexpected::Signed(3)))
    );
    assert_eq!(enum_visit(JsonShape::Array), Err(EnumRefusal::InvalidType(Unexpected::Sequence)));
}
