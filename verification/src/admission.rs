//! Decisions of input admission for structured reads: which measurement
//! each visited node is charged as, in which order the budgets are asked,
//! and how much formatted text a value may produce.
//!
//! The budgets themselves belong to `qubit-budget`; what is decided here is
//! what they are asked.

use vstd::prelude::*;

verus! {

/// A native measurement of one JSON node, as a JSON value budget admits it.
#[derive(Debug, Clone, Copy, PartialEq, Eq, Structural)]
pub enum Measurement {
    /// A null value at a depth.
    Null {
        /// Root-inclusive nesting depth.
        depth: usize,
    },
    /// A boolean value at a depth.
    Boolean {
        /// Root-inclusive nesting depth.
        depth: usize,
    },
    /// A string of UTF-8 bytes at a depth.
    String {
        /// Root-inclusive nesting depth.
        depth: usize,
        /// UTF-8 length of the string.
        bytes: usize,
    },
    /// The text of a number at a depth.
    Number {
        /// Root-inclusive nesting depth.
        depth: usize,
        /// Length of the number's text.
        bytes: usize,
    },
    /// An array of items at a depth.
    Array {
        /// Root-inclusive nesting depth.
        depth: usize,
        /// Number of items.
        items: usize,
    },
    /// An object of entries at a depth.
    Object {
        /// Root-inclusive nesting depth.
        depth: usize,
        /// Number of entries.
        entries: usize,
    },
    /// An object key of UTF-8 bytes.
    Key {
        /// UTF-8 length of the key.
        bytes: usize,
    },
}

/// The kind of a stored scalar value, with what its admission reads of it.
#[derive(Debug, Clone, Copy, PartialEq, Eq, Structural)]
pub enum ScalarKind {
    /// An unset value.
    Unset,
    /// A boolean.
    Bool,
    /// A string of UTF-8 bytes.
    Text {
        /// UTF-8 length of the string.
        bytes: usize,
    },
    /// A character.
    Char,
    /// A signed or unsigned integer of at most 64 bits.
    Integer,
    /// A 128-bit signed or unsigned integer.
    WideInteger,
    /// A floating-point number, finite or not.
    Float {
        /// Whether the number is finite.
        finite: bool,
    },
    /// A value rendered by its display text: a date, time, instant, URL,
    /// or big number.
    Rendered,
    /// A duration, whose text under the read's conversion policy has the
    /// given UTF-8 length.
    Duration {
        /// UTF-8 length of the duration's text.
        text_bytes: usize,
    },
    /// A value that has no JSON form.
    Unsupported,
}

/// Why a value cannot be admitted.
#[derive(Debug, Clone, Copy, PartialEq, Eq, Structural)]
pub enum RejectReason {
    /// A floating-point number is infinite or not a number.
    NonFinite,
    /// The value has no JSON form.
    Unsupported,
}

/// What admitting one value asks of the budgets.
#[derive(Debug, Clone, Copy, PartialEq, Eq, Structural)]
pub enum Admission {
    /// Admit the measurement in the value budget.
    Admit(Measurement),
    /// Charge the bytes to the input budget, then admit them as a string.
    Text {
        /// UTF-8 length of the text.
        bytes: usize,
    },
    /// Format the value, count its text, and admit it as a number or a
    /// string.
    Format {
        /// Whether the text is admitted as a number.
        number: bool,
    },
    /// Fail with a conversion error.
    Reject(RejectReason),
}

/// What admitting a scalar asks of the budgets.
pub open spec fn scalar_admission_of(kind: ScalarKind, depth: usize) -> Admission {
    match kind {
        ScalarKind::Unset => Admission::Admit(Measurement::Null { depth }),
        ScalarKind::Bool => Admission::Admit(Measurement::Boolean { depth }),
        ScalarKind::Text { bytes } => Admission::Text { bytes },
        ScalarKind::Char => Admission::Format { number: false },
        ScalarKind::Integer => Admission::Format { number: true },
        ScalarKind::WideInteger => Admission::Format { number: false },
        ScalarKind::Float { finite } => if finite {
            Admission::Format { number: true }
        } else {
            Admission::Reject(RejectReason::NonFinite)
        },
        ScalarKind::Rendered => Admission::Format { number: false },
        ScalarKind::Duration { text_bytes } => Admission::Admit(
            Measurement::String { depth, bytes: text_bytes },
        ),
        ScalarKind::Unsupported => Admission::Reject(RejectReason::Unsupported),
    }
}

/// Decides how a scalar at `depth` is admitted: unset as null, booleans as
/// booleans, strings by their bytes, durations by the length of their
/// text, characters, integers and finite floats by their formatted text
/// (integers of at most 64 bits and floats as numbers, the others as
/// strings), and non-finite floats and values without JSON form rejected.
pub fn scalar_admission(kind: ScalarKind, depth: usize) -> (r: Admission)
    ensures
        r == scalar_admission_of(kind, depth),
        kind is Unset ==> r == Admission::Admit(Measurement::Null { depth }),
        kind is Bool ==> r == Admission::Admit(Measurement::Boolean { depth }),
        kind matches ScalarKind::Text { bytes } ==> r == (Admission::Text { bytes }),
        kind is Char ==> r == (Admission::Format { number: false }),
        kind is Integer ==> r == (Admission::Format { number: true }),
        kind is WideInteger ==> r == (Admission::Format { number: false }),
        kind matches ScalarKind::Float { finite } ==> (finite ==> r == (Admission::Format {
            number: true,
        })) && (!finite ==> r == Admission::Reject(RejectReason::NonFinite)),
        kind is Rendered ==> r == (Admission::Format { number: false }),
        kind matches ScalarKind::Duration { text_bytes } ==> r == Admission::Admit(
            Measurement::String { depth, bytes: text_bytes },
        ),
        kind is Unsupported ==> r == Admission::Reject(RejectReason::Unsupported),
{
    match kind {
        ScalarKind::Unset => Admission::Admit(Measurement::Null { depth }),
        ScalarKind::Bool => Admission::Admit(Measurement::Boolean { depth }),
        ScalarKind::Text { bytes } => Admission::Text { bytes },
        ScalarKind::Char => Admission::Format { number: false },
        ScalarKind::Integer => Admission::Format { number: true },
        ScalarKind::WideInteger => Admission::Format { number: false },
        ScalarKind::Float { finite } => {
            if finite {
                Admission::Format { number: true }
            } else {
                Admission::Reject(RejectReason::NonFinite)
            }
        },
        ScalarKind::Rendered => Admission::Format { number: false },
        ScalarKind::Duration { text_bytes } => Admission::Admit(
            Measurement::String { depth, bytes: text_bytes },
        ),
        ScalarKind::Unsupported => Admission::Reject(RejectReason::Unsupported),
    }
}

/// The kind of a node visited while reading a structured value.
#[derive(Debug, Clone, Copy, PartialEq, Eq, Structural)]
pub enum NodeKind {
    /// A stored scalar.
    Scalar(ScalarKind),
    /// Text that stands for the node.
    Text {
        /// UTF-8 length of the text.
        bytes: usize,
    },
    /// A missing value or a JSON null.
    Null,
    /// A JSON boolean.
    JsonBool,
    /// A JSON string.
    JsonString {
        /// UTF-8 length of the string.
        bytes: usize,
    },
    /// A JSON number.
    JsonNumber,
    /// A stored collection or a JSON array.
    Array {
        /// Number of items.
        items: usize,
    },
    /// A JSON object, a nested object or a string map.
    Object {
        /// Number of entries.
        entries: usize,
    },
}

/// What admitting one visited node asks of the budgets: first its key, if
/// it has one, then the node itself.
#[derive(Debug, Clone, Copy, PartialEq, Eq, Structural)]
pub struct VisitAdmission {
    /// UTF-8 length of the node's key: charged to the input budget, then
    /// admitted as a key.
    pub key_bytes: Option<usize>,
    /// What the node itself asks.
    pub node: Admission,
}

/// What admitting a node asks, apart from its key.
pub open spec fn node_admission_of(overlay: Option<usize>, node: NodeKind, depth: usize) -> Admission {
    match overlay {
        Some(bytes) => Admission::Text { bytes },
        None => match node {
            NodeKind::Scalar(kind) => scalar_admission_of(kind, depth),
            NodeKind::Text { bytes } => Admission::Text { bytes },
            NodeKind::Null => Admission::Admit(Measurement::Null { depth }),
            NodeKind::JsonBool => Admission::Admit(Measurement::Boolean { depth }),
            NodeKind::JsonString { bytes } => Admission::Text { bytes },
            NodeKind::JsonNumber => Admission::Format { number: true },
            NodeKind::Array { items } => Admission::Admit(Measurement::Array { depth, items }),
            NodeKind::Object { entries } => Admission::Admit(Measurement::Object { depth, entries }),
        },
    }
}

/// Text is charged as text: replacement text, stored strings, plain text
/// and JSON strings are all admitted by their own bytes, and the decision
/// for a stored scalar is the scalar's own.
pub proof fn law_text_is_charged_by_its_bytes(
    overlay: usize,
    bytes: usize,
    node: NodeKind,
    kind: ScalarKind,
    depth: usize,
)
    ensures
        node_admission_of(Some(overlay), node, depth) == (Admission::Text { bytes: overlay }),
        node_admission_of(None, NodeKind::Scalar(ScalarKind::Text { bytes }), depth) == (
        Admission::Text { bytes }),
        node_admission_of(None, NodeKind::Text { bytes }, depth) == (Admission::Text { bytes }),
        node_admission_of(None, NodeKind::JsonString { bytes }, depth) == (Admission::Text { bytes }),
        node_admission_of(None, NodeKind::Scalar(kind), depth) == scalar_admission_of(kind, depth),
        scalar_admission_of(ScalarKind::Text { bytes }, depth) == (Admission::Text { bytes }),
        scalar_admission_of(ScalarKind::Float { finite: false }, depth) == Admission::Reject(
            RejectReason::NonFinite,
        ),
        scalar_admission_of(ScalarKind::Unsupported, depth) == Admission::Reject(
            RejectReason::Unsupported,
        ),
{
}

/// Decides how a visited node at `depth` is admitted: its key, of
/// `key_bytes` bytes, first; then replacement text of `overlay` bytes when
/// the node has one, and otherwise the node by its kind.
pub fn visit_admission(
    key_bytes: Option<usize>,
    overlay: Option<usize>,
    node: NodeKind,
    depth: usize,
) -> (r: VisitAdmission)
    ensures
        r.key_bytes == key_bytes,
        r.node == node_admission_of(overlay, node, depth),
        overlay matches Some(bytes) ==> r.node == (Admission::Text { bytes }),
        overlay is None ==> {
            &&& node matches NodeKind::Scalar(ScalarKind::Text { bytes }) ==> r.node == (
            Admission::Text { bytes })
            &&& node matches NodeKind::Scalar(kind) ==> r.node == scalar_admission_of(kind, depth)
            &&& node matches NodeKind::Text { bytes } ==> r.node == (Admission::Text { bytes })
            &&& node is Null ==> r.node == Admission::Admit(Measurement::Null { depth })
            &&& node is JsonBool ==> r.node == Admission::Admit(Measurement::Boolean { depth })
            &&& node matches NodeKind::JsonString { bytes } ==> r.node == (Admission::Text {
                bytes,
            })
            &&& node is JsonNumber ==> r.node == (Admission::Format { number: true })
            &&& node matches NodeKind::Array { items } ==> r.node == Admission::Admit(
                Measurement::Array { depth, items },
            )
            &&& node matches NodeKind::Object { entries } ==> r.node == Admission::Admit(
                Measurement::Object { depth, entries },
            )
        },
{
    let admitted = match overlay {
        Some(bytes) => Admission::Text { bytes },
        None => match node {
            NodeKind::Scalar(kind) => scalar_admission(kind, depth),
            NodeKind::Text { bytes } => Admission::Text { bytes },
            NodeKind::Null => Admission::Admit(Measurement::Null { depth }),
            NodeKind::JsonBool => Admission::Admit(Measurement::Boolean { depth }),
            NodeKind::JsonString { bytes } => Admission::Text { bytes },
            NodeKind::JsonNumber => Admission::Format { number: true },
            NodeKind::Array { items } => Admission::Admit(Measurement::Array { depth, items }),
            NodeKind::Object { entries } => Admission::Admit(
                Measurement::Object { depth, entries },
            ),
        },
    };
    VisitAdmission { key_bytes, node: admitted }
}

/// The limit that bounds a value's formatted text.
#[derive(Debug, Clone, Copy, PartialEq, Eq, Structural)]
pub enum TextBound {
    /// What is left of the structured payload allowance.
    Payload,
    /// The maximum text length of one value.
    Text,
}

/// The outcome of counting a value's formatted text.
#[derive(Debug, Clone, Copy, PartialEq, Eq, Structural)]
pub enum FormatOutcome {
    /// The payload already used exceeds the payload allowance.
    PayloadSpent {
        /// Payload bytes already used.
        used: u64,
        /// The payload allowance.
        limit: u64,
    },
    /// The text is longer than the bound that applies.
    TooLong {
        /// The limit that applies.
        bound: TextBound,
        /// Bytes the text may still take.
        remaining: u64,
    },
    /// The text fits; it is admitted as a measurement of this length.
    Fits {
        /// Length of the formatted text.
        bytes: u64,
    },
}

/// The outcome of counting `formatted` bytes of text when `used` payload
/// bytes of a `payload_limit` allowance are spent and one value's text may
/// take at most `text_limit` bytes: the tighter of the two bounds applies,
/// the payload allowance when they are equal.
pub open spec fn format_outcome_of(formatted: u64, used: u64, payload_limit: u64, text_limit: u64) -> FormatOutcome {
    if used > payload_limit {
        FormatOutcome::PayloadSpent { used, limit: payload_limit }
    } else {
        let payload_left = (payload_limit - used) as u64;
        let (bound, remaining) = if text_limit < payload_left {
            (TextBound::Text, text_limit)
        } else {
            (TextBound::Payload, payload_left)
        };
        if formatted > remaining {
            FormatOutcome::TooLong { bound, remaining }
        } else {
            FormatOutcome::Fits { bytes: formatted }
        }
    }
}

/// Decides whether a value's formatted text of `formatted` bytes may be
/// admitted, after its empty probe measurement was admitted. Text is
/// admitted exactly when it fits both the per-value text limit and what is
/// left of the payload allowance.
pub fn format_outcome(formatted: u64, used: u64, payload_limit: u64, text_limit: u64) -> (r:
    FormatOutcome)
    ensures
        r == format_outcome_of(formatted, used, payload_limit, text_limit),
        r is Fits <==> (formatted <= text_limit && used + formatted <= payload_limit),
{
    if used > payload_limit {
        return FormatOutcome::PayloadSpent { used, limit: payload_limit };
    }
    let payload_left = payload_limit - used;
    let (bound, remaining) = if text_limit < payload_left {
        (TextBound::Text, text_limit)
    } else {
        (TextBound::Payload, payload_left)
    };
    if formatted > remaining {
        FormatOutcome::TooLong { bound, remaining }
    } else {
        FormatOutcome::Fits { bytes: formatted }
    }
}

/// The measurement that an empty probe, and then the counted text, are
/// admitted as.
pub open spec fn formatted_measurement_of(number: bool, depth: usize, bytes: usize) -> Measurement {
    if number {
        Measurement::Number { depth, bytes }
    } else {
        Measurement::String { depth, bytes }
    }
}

/// The measurement of formatted text of `bytes` bytes at `depth`: a number
/// or a string.
pub fn formatted_measurement(number: bool, depth: usize, bytes: usize) -> (m: Measurement)
    ensures
        m == formatted_measurement_of(number, depth, bytes),
        number ==> m == (Measurement::Number { depth, bytes }),
        !number ==> m == (Measurement::String { depth, bytes }),
{
    if number {
        Measurement::Number { depth, bytes }
    } else {
        Measurement::String { depth, bytes }
    }
}

/// The kind of a JSON scalar that a string read starts from.
#[derive(Debug, Clone, Copy, PartialEq, Eq, Structural)]
pub enum JsonScalarKind {
    /// `null`.
    Null,
    /// A boolean.
    Bool(bool),
    /// A number, with its value when it fits a signed or an unsigned 64-bit
    /// integer.
    Number {
        /// The value when it fits `i64`.
        signed: Option<i64>,
        /// The value when it fits `u64`.
        unsigned: Option<u64>,
    },
    /// A string.
    String,
    /// An array.
    Array,
    /// An object.
    Object,
}

/// What a JSON value of the wrong kind is reported as.
#[derive(Debug, Clone, Copy, PartialEq, Eq, Structural)]
pub enum UnexpectedKind {
    /// The unit value (`null`).
    Unit,
    /// A sequence.
    Sequence,
    /// A map.
    Mapping,
}

/// The value a string read converts from.
#[derive(Debug, Clone, Copy, PartialEq, Eq, Structural)]
pub enum TextSource {
    /// The string itself.
    Text,
    /// A boolean value.
    Bool(bool),
    /// A signed 64-bit integer.
    Int64(i64),
    /// An unsigned 64-bit integer.
    UInt64(u64),
    /// The number as a 64-bit float.
    Float64,
}

/// The value a string read converts from, or what the wrong kind of JSON
/// value is reported as.
pub open spec fn text_source_of(kind: JsonScalarKind) -> Result<TextSource, UnexpectedKind> {
    match kind {
        JsonScalarKind::String => Ok(TextSource::Text),
        JsonScalarKind::Bool(b) => Ok(TextSource::Bool(b)),
        JsonScalarKind::Number { signed, unsigned } => match signed {
            Some(v) => Ok(TextSource::Int64(v)),
            None => match unsigned {
                Some(v) => Ok(TextSource::UInt64(v)),
                None => Ok(TextSource::Float64),
            },
        },
        JsonScalarKind::Null => Err(UnexpectedKind::Unit),
        JsonScalarKind::Array => Err(UnexpectedKind::Sequence),
        JsonScalarKind::Object => Err(UnexpectedKind::Mapping),
    }
}

/// Decides what a string read of a JSON scalar converts from: strings as
/// they are, booleans as booleans, numbers as a signed integer when they
/// fit, else as an unsigned one, else as a float; null, arrays and objects
/// are of the wrong kind.
pub fn text_source(kind: JsonScalarKind) -> (r: Result<TextSource, UnexpectedKind>)
    ensures
        r == text_source_of(kind),
        kind is String ==> r == Ok::<TextSource, UnexpectedKind>(TextSource::Text),
        kind matches JsonScalarKind::Bool(b) ==> r == Ok::<TextSource, UnexpectedKind>(
            TextSource::Bool(b),
        ),
        kind matches JsonScalarKind::Number { signed: Some(v), .. } ==> r == Ok::<
            TextSource,
            UnexpectedKind,
        >(TextSource::Int64(v)),
        kind matches JsonScalarKind::Number { signed: None, unsigned: Some(v) } ==> r == Ok::<
            TextSource,
            UnexpectedKind,
        >(TextSource::UInt64(v)),
        kind matches JsonScalarKind::Number { signed: None, unsigned: None } ==> r == Ok::<
            TextSource,
            UnexpectedKind,
        >(TextSource::Float64),
        kind is Null ==> r == Err::<TextSource, UnexpectedKind>(UnexpectedKind::Unit),
        kind is Array ==> r == Err::<TextSource, UnexpectedKind>(UnexpectedKind::Sequence),
        kind is Object ==> r == Err::<TextSource, UnexpectedKind>(UnexpectedKind::Mapping),
{
    match kind {
        JsonScalarKind::String => Ok(TextSource::Text),
        JsonScalarKind::Bool(b) => Ok(TextSource::Bool(b)),
        JsonScalarKind::Number { signed, unsigned } => match signed {
            Some(v) => Ok(TextSource::Int64(v)),
            None => match unsigned {
                Some(v) => Ok(TextSource::UInt64(v)),
                None => Ok(TextSource::Float64),
            },
        },
        JsonScalarKind::Null => Err(UnexpectedKind::Unit),
        JsonScalarKind::Array => Err(UnexpectedKind::Sequence),
        JsonScalarKind::Object => Err(UnexpectedKind::Mapping),
    }
}

} // verus!
