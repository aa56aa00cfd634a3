use qubit_config::admission::NodeKind;
use qubit_config::admission::ScalarKind;
use qubit_config::input_budget::admit_input;
use qubit_config::input_budget::AdmissionLimits;
use qubit_config::input_budget::InputAdmissionError;
use qubit_config::input_budget::InputBudget;
use qubit_config::input_budget::Visit;
use qubit_config::ConfigError;
use qubit_config::ConfigErrorKind;
use qubit_datatype::DataType;

fn limits(input_bytes: u64) -> AdmissionLimits {
    AdmissionLimits {
        input_bytes,
        payload_bytes: 1_000,
        max_text_bytes: 100,
        max_depth: 16,
        max_nodes: 100,
        max_sequence_items: 100,
        max_map_entries: 100,
        max_key_bytes: 64,
        max_string_bytes: 64,
        max_number_bytes: 32,
    }
}

fn visit(path: &str, node: NodeKind) -> Visit {
    Visit {
        path: path.to_string(),
        source_index: None,
        data_type: DataType::String,
        depth: 1,
        key_bytes: None,
        overlay_bytes: None,
        node,
        formatted_bytes: 0,
    }
}

fn limit_path(error: &InputAdmissionError) -> Option<&str> {
    match error {
        InputAdmissionError::Limit { path, .. } => Some(path.as_str()),
        InputAdmissionError::Conversion(_) => None,
    }
}

#[test]
fn text_and_keys_are_taken_from_the_input_allowance() {
    let mut budget = InputBudget::new(&limits(10));
    let mut v = visit("app.name", NodeKind::Text { bytes: 5 });
    v.key_bytes = Some(3);
    assert!(budget.admit_visit(&v).is_ok());
    assert_eq!(budget.input_left(), 2);
}

#[test]
fn input_beyond_the_allowance_is_refused_at_the_visit() {
    let first = visit("a", NodeKind::Text { bytes: 6 });
    let second = visit("b", NodeKind::Text { bytes: 5 });
    let error = admit_input(&vec![first, second], &limits(10)).unwrap_err();
    assert_eq!(limit_path(&error), Some("b"));
    assert_eq!(error.kind(), ConfigErrorKind::Value);
}

#[test]
fn input_within_the_allowance_is_admitted() {
    let first = visit("a", NodeKind::Text { bytes: 6 });
    let second = visit("b", NodeKind::Text { bytes: 4 });
    assert!(admit_input(&vec![first, second], &limits(10)).is_ok());
}

#[test]
fn a_refused_charge_takes_nothing() {
    let mut budget = InputBudget::new(&limits(4));
    let v = visit("a", NodeKind::Null);
    assert!(budget.charge_input(5, &v).is_err());
    assert_eq!(budget.input_left(), 4);
    assert!(budget.charge_input(4, &v).is_ok());
    assert_eq!(budget.input_left(), 0);
}

#[test]
fn non_finite_floats_are_conversion_errors_and_change_nothing() {
    let mut budget = InputBudget::new(&limits(10));
    let mut v = visit("ratio", NodeKind::Null);
    v.data_type = DataType::Float64;
    v.source_index = Some(2);
    let error = budget.admit_scalar(ScalarKind::Float { finite: false }, &v).unwrap_err();
    assert_eq!(error.kind(), ConfigErrorKind::Conversion);
    match error {
        InputAdmissionError::Conversion(ConfigError::ConversionError { key, source_index, .. }) => {
            assert_eq!(key, "ratio");
            assert_eq!(source_index, Some(2));
        }
        other => panic!("unexpected error {other:?}"),
    }
    assert_eq!(budget.input_left(), 10);
}

#[test]
fn values_without_json_form_are_conversion_errors() {
    let mut budget = InputBudget::new(&limits(10));
    let v = visit("blob", NodeKind::Null);
    let error = budget.admit_scalar(ScalarKind::Unsupported, &v).unwrap_err();
    match error {
        InputAdmissionError::Conversion(ConfigError::ConversionError { key, source_index, .. }) => {
            assert_eq!(key, "blob");
            assert_eq!(source_index, None);
        }
        other => panic!("unexpected error {other:?}"),
    }
}

#[test]
fn formatted_text_longer_than_the_text_limit_is_refused() {
    let mut small = limits(10);
    small.max_text_bytes = 5;
    let mut budget = InputBudget::new(&small);
    let v = visit("port", NodeKind::JsonNumber);
    let error = budget.admit_formatted(6, true, &v).unwrap_err();
    assert_eq!(limit_path(&error), Some("port"));
    assert!(budget.admit_formatted(5, true, &v).is_ok());
    assert_eq!(budget.input_left(), 10);
}

#[test]
fn scalars_are_admitted_by_their_display_text() {
    let mut budget = InputBudget::new(&limits(10));
    let mut v = visit("port", NodeKind::Scalar(ScalarKind::Integer));
    v.formatted_bytes = 4;
    assert!(budget.admit_visit(&v).is_ok());
    v.formatted_bytes = 200;
    assert!(budget.admit_visit(&v).is_err());
}

#[test]
fn nodes_deeper_than_the_depth_limit_are_refused() {
    let mut shallow = limits(10);
    shallow.max_depth = 2;
    let mut budget = InputBudget::new(&shallow);
    let mut v = visit("a.b.c", NodeKind::Null);
    v.depth = 5;
    let error = budget.admit_visit(&v).unwrap_err();
    assert_eq!(limit_path(&error), Some("a.b.c"));
}

#[test]
fn a_refused_string_keeps_its_input_bytes_taken() {
    let mut narrow = limits(100);
    narrow.max_string_bytes = 3;
    let mut budget = InputBudget::new(&narrow);
    let v = visit("name", NodeKind::Text { bytes: 8 });
    assert!(budget.admit_text(8, &v).is_err());
    assert_eq!(budget.input_left(), 92);
}

#[test]
fn overlay_text_replaces_the_node() {
    let mut budget = InputBudget::new(&limits(10));
    let mut v = visit("list", NodeKind::Array { items: 3 });
    v.overlay_bytes = Some(7);
    assert!(budget.admit_visit(&v).is_ok());
    assert_eq!(budget.input_left(), 3);
}
