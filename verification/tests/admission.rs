use qubit_config::admission::format_outcome;
use qubit_config::admission::formatted_measurement;
use qubit_config::admission::scalar_admission;
use qubit_config::admission::text_source;
use qubit_config::admission::visit_admission;
use qubit_config::admission::Admission;
use qubit_config::admission::FormatOutcome;
use qubit_config::admission::JsonScalarKind;
use qubit_config::admission::Measurement;
use qubit_config::admission::NodeKind;
use qubit_config::admission::RejectReason;
use qubit_config::admission::ScalarKind;
use qubit_config::admission::TextBound;
use qubit_config::admission::TextSource;
use qubit_config::admission::UnexpectedKind;

#[test]
fn scalars_are_admitted_by_kind() {
    assert_eq!(
        scalar_admission(ScalarKind::Unset, 2),
        Admission::Admit(Measurement::Null { depth: 2 })
    );
    assert_eq!(
        scalar_admission(ScalarKind::Bool, 1),
        Admission::Admit(Measurement::Boolean { depth: 1 })
    );
    assert_eq!(
        scalar_admission(ScalarKind::Text { bytes: 7 }, 1),
        Admission::Text { bytes: 7 }
    );
    assert_eq!(scalar_admission(ScalarKind::Char, 1), Admission::Format { number: false });
    assert_eq!(scalar_admission(ScalarKind::Integer, 1), Admission::Format { number: true });
    assert_eq!(
        scalar_admission(ScalarKind::WideInteger, 1),
        Admission::Format { number: false }
    );
    assert_eq!(
        scalar_admission(ScalarKind::Float { finite: true }, 1),
        Admission::Format { number: true }
    );
    assert_eq!(
        scalar_admission(ScalarKind::Rendered, 1),
        Admission::Format { number: false }
    );
    assert_eq!(
        scalar_admission(ScalarKind::Duration { text_bytes: 5 }, 3),
        Admission::Admit(Measurement::String { depth: 3, bytes: 5 })
    );
}

#[test]
fn non_finite_and_unsupported_scalars_are_rejected() {
    assert_eq!(
        scalar_admission(ScalarKind::Float { finite: false }, 1),
        Admission::Reject(RejectReason::NonFinite)
    );
    assert_eq!(
        scalar_admission(ScalarKind::Unsupported, 1),
        Admission::Reject(RejectReason::Unsupported)
    );
}

#[test]
fn visit_charges_key_first_and_overlay_replaces_node() {
    let visit = visit_admission(Some(4), Some(9), NodeKind::Array { items: 3 }, 2);
    assert_eq!(visit.key_bytes, Some(4));
    assert_eq!(visit.node, Admission::Text { bytes: 9 });

    let visit = visit_admission(None, None, NodeKind::Array { items: 3 }, 2);
    assert_eq!(visit.key_bytes, None);
    assert_eq!(visit.node, Admission::Admit(Measurement::Array { depth: 2, items: 3 }));
}

#[test]
fn visit_measures_each_node_kind() {
    assert_eq!(
        visit_admission(None, None, NodeKind::Null, 1).node,
        Admission::Admit(Measurement::Null { depth: 1 })
    );
    assert_eq!(
        visit_admission(None, None, NodeKind::JsonBool, 1).node,
        Admission::Admit(Measurement::Boolean { depth: 1 })
    );
    assert_eq!(
        visit_admission(None, None, NodeKind::JsonString { bytes: 6 }, 1).node,
        Admission::Text { bytes: 6 }
    );
    assert_eq!(
        visit_admission(None, None, NodeKind::Text { bytes: 2 }, 1).node,
        Admission::Text { bytes: 2 }
    );
    assert_eq!(
        visit_admission(None, None, NodeKind::JsonNumber, 1).node,
        Admission::Format { number: true }
    );
    assert_eq!(
        visit_admission(None, None, NodeKind::Object { entries: 5 }, 0).node,
        Admission::Admit(Measurement::Object { depth: 0, entries: 5 })
    );
    assert_eq!(
        visit_admission(Some(1), None, NodeKind::Scalar(ScalarKind::Integer), 4).node,
        Admission::Format { number: true }
    );
}

#[test]
fn formatted_text_is_bounded_by_the_tighter_limit() {
    assert_eq!(
        format_outcome(3, 10, 100, 5),
        FormatOutcome::Fits { bytes: 3 }
    );
    assert_eq!(
        format_outcome(6, 10, 100, 5),
        FormatOutcome::TooLong { bound: TextBound::Text, remaining: 5 }
    );
    assert_eq!(
        format_outcome(6, 96, 100, 50),
        FormatOutcome::TooLong { bound: TextBound::Payload, remaining: 4 }
    );
    assert_eq!(
        format_outcome(5, 95, 100, 5),
        FormatOutcome::Fits { bytes: 5 }
    );
    assert_eq!(
        format_outcome(6, 95, 100, 5),
        FormatOutcome::TooLong { bound: TextBound::Payload, remaining: 5 }
    );
}

#[test]
fn spent_payload_fails_before_formatting() {
    assert_eq!(
        format_outcome(0, 101, 100, 5),
        FormatOutcome::PayloadSpent { used: 101, limit: 100 }
    );
    assert_eq!(format_outcome(0, 100, 100, 5), FormatOutcome::Fits { bytes: 0 });
}

#[test]
fn formatted_text_is_a_number_or_a_string() {
    assert_eq!(formatted_measurement(true, 2, 3), Measurement::Number { depth: 2, bytes: 3 });
    assert_eq!(formatted_measurement(false, 2, 3), Measurement::String { depth: 2, bytes: 3 });
}

#[test]
fn string_reads_convert_from_the_json_scalar() {
    assert_eq!(text_source(JsonScalarKind::String), Ok(TextSource::Text));
    assert_eq!(text_source(JsonScalarKind::Bool(true)), Ok(TextSource::Bool(true)));
    assert_eq!(
        text_source(JsonScalarKind::Number { signed: Some(-3), unsigned: None }),
        Ok(TextSource::Int64(-3))
    );
    assert_eq!(
        text_source(JsonScalarKind::Number { signed: Some(7), unsigned: Some(7) }),
        Ok(TextSource::Int64(7))
    );
    assert_eq!(
        text_source(JsonScalarKind::Number { signed: None, unsigned: Some(u64::MAX) }),
        Ok(TextSource::UInt64(u64::MAX))
    );
    assert_eq!(
        text_source(JsonScalarKind::Number { signed: None, unsigned: None }),
        Ok(TextSource::Float64)
    );
}

#[test]
fn string_reads_reject_null_arrays_and_objects() {
    assert_eq!(text_source(JsonScalarKind::Null), Err(UnexpectedKind::Unit));
    assert_eq!(text_source(JsonScalarKind::Array), Err(UnexpectedKind::Sequence));
    assert_eq!(text_source(JsonScalarKind::Object), Err(UnexpectedKind::Mapping));
}
