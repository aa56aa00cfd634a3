//! Input admission of a structured read: every visited node is charged
//! against a byte allowance and a JSON value budget before any target
//! conversion runs, and the first refusal ends the read.

use vstd::prelude::*;

use qubit_budget::json::JsonResource;
use qubit_budget::MeasuredBudgetError;
use qubit_datatype::DataConversionError;
use qubit_datatype::DataType;

use crate::admission::format_outcome_of;
use crate::admission::formatted_measurement;
use crate::admission::formatted_measurement_of;
use crate::admission::node_admission_of;
use crate::admission::scalar_admission;
use crate::admission::scalar_admission_of;
use crate::admission::visit_admission;
use crate::admission::Admission;
use crate::admission::FormatOutcome;
use crate::admission::Measurement;
use crate::admission::NodeKind;
use crate::admission::RejectReason;
use crate::admission::ScalarKind;
use crate::budget::allowance_remaining;
use crate::budget::fresh_structure_budget;
use crate::budget::new_allowance;
use crate::budget::new_structure_budget;
use crate::budget::non_finite_conversion;
use crate::budget::non_finite_error;
use crate::budget::remaining;
use crate::budget::structure_admission;
use crate::budget::structure_admit;
use crate::budget::structure_probe;
use crate::budget::structure_used_payload;
use crate::budget::take;
use crate::budget::unsupported_error;
use crate::budget::unsupported_json_conversion;
use crate::budget::used_payload;
use crate::budget::Allowance;
use crate::budget::StructureBudget;
use crate::error::ConfigError;
use crate::error::ConfigErrorKind;
use crate::text::concat;
use crate::text::decimal;
use crate::text::decimal_string;
use crate::text::owned;
use crate::wire::byte_len;
use crate::wire::utf8_len;

verus! {

/// The limits of one structured read's input, in bytes and counts.
#[derive(Debug, Clone, Copy, PartialEq, Eq, Structural)]
pub struct AdmissionLimits {
    /// Bytes of keys and text that the read may take in.
    pub input_bytes: u64,
    /// Payload bytes of the structured value.
    pub payload_bytes: u64,
    /// Bytes of one value's formatted text.
    pub max_text_bytes: u64,
    /// Root-inclusive nesting depth.
    pub max_depth: u64,
    /// Nodes of the structured value.
    pub max_nodes: u64,
    /// Items of one array.
    pub max_sequence_items: u64,
    /// Entries of one object.
    pub max_map_entries: u64,
    /// Bytes of one object key.
    pub max_key_bytes: u64,
    /// Bytes of one string.
    pub max_string_bytes: u64,
    /// Bytes of one number's text.
    pub max_number_bytes: u64,
}

/// One node visited by a structured read, with what its admission reads.
#[derive(Debug)]
pub struct Visit {
    /// Configuration path of the node.
    pub path: String,
    /// Index of the node in its source collection, when it is an element.
    pub source_index: Option<usize>,
    /// Runtime type of the node, reported in errors.
    pub data_type: DataType,
    /// Root-inclusive nesting depth.
    pub depth: usize,
    /// UTF-8 length of the node's object key, when it has one.
    pub key_bytes: Option<usize>,
    /// UTF-8 length of replacement text for the node, when it has one.
    pub overlay_bytes: Option<usize>,
    /// What the node is.
    pub node: NodeKind,
    /// UTF-8 length of the node's display text, for nodes admitted by it.
    pub formatted_bytes: usize,
}

/// Why a structured read's input was refused.
#[derive(Debug)]
pub enum InputAdmissionError {
    /// A budget refused a charge or a measurement.
    Limit {
        /// Configuration path of the refused node.
        path: String,
        /// Index of the node in its source collection, when relevant.
        source_index: Option<usize>,
        /// Runtime type of the refused node.
        data_type: DataType,
        /// The refusal, with its resource and quantities.
        source: MeasuredBudgetError<JsonResource, u64>,
    },
    /// The node's value cannot be projected to JSON.
    Conversion(ConfigError),
}

impl InputAdmissionError {
    /// The category of this error: a budget refusal is a value-layer error.
    pub open spec fn spec_kind(&self) -> ConfigErrorKind {
        match self {
            InputAdmissionError::Limit { .. } => ConfigErrorKind::Value,
            InputAdmissionError::Conversion(error) => error.spec_kind(),
        }
    }

    /// Returns the category of this error: `Value` for a budget refusal,
    /// the conversion error's own otherwise.
    pub fn kind(&self) -> (k: ConfigErrorKind)
        ensures
            k == self.spec_kind(),
    {
        match self {
            InputAdmissionError::Limit { .. } => ConfigErrorKind::Value,
            InputAdmissionError::Conversion(error) => error.kind(),
        }
    }
}

/// What the budgets of a read hold: the committed JSON accounting, the
/// input bytes left, and the two bounds on formatted text.
pub struct InputState {
    /// Committed JSON accounting.
    pub structure: StructureBudget,
    /// Input bytes not taken yet.
    pub input_left: u64,
    /// Payload bytes of the structured value.
    pub payload_limit: u64,
    /// Bytes of one value's formatted text.
    pub text_limit: u64,
}

/// Why a step of admission failed.
pub enum Refusal {
    /// A budget refused it.
    Limit,
    /// The value cannot be projected to JSON.
    Reject(RejectReason),
}

/// The state after `bytes` input bytes are taken, or `None` when fewer are
/// left.
pub open spec fn charged(s: InputState, bytes: int) -> Option<InputState> {
    if bytes <= s.input_left {
        Some(
            InputState {
                structure: s.structure,
                input_left: (s.input_left - bytes) as u64,
                payload_limit: s.payload_limit,
                text_limit: s.text_limit,
            },
        )
    } else {
        None
    }
}

/// The state after `m` is admitted, or `None` when the JSON budget refuses it.
pub open spec fn measured(s: InputState, m: Measurement) -> Option<InputState> {
    match structure_admission(s.structure, m) {
        Some(after) => Some(
            InputState {
                structure: after,
                input_left: s.input_left,
                payload_limit: s.payload_limit,
                text_limit: s.text_limit,
            },
        ),
        None => None,
    }
}

/// Taking `bytes` input bytes: the new state and the refusal, if any.
pub open spec fn charge_step(s: InputState, bytes: int) -> (InputState, Option<Refusal>) {
    match charged(s, bytes) {
        Some(t) => (t, None),
        None => (s, Some(Refusal::Limit)),
    }
}

/// Admitting `m`: the new state and the refusal, if any.
pub open spec fn measure_step(s: InputState, m: Measurement) -> (InputState, Option<Refusal>) {
    match measured(s, m) {
        Some(t) => (t, None),
        None => (s, Some(Refusal::Limit)),
    }
}

/// Admitting text of `bytes` bytes: the bytes are taken from the input
/// allowance first (and stay taken), then admitted as a string.
pub open spec fn text_step(s: InputState, bytes: usize, depth: usize) -> (InputState, Option<Refusal>) {
    match charged(s, bytes as int) {
        None => (s, Some(Refusal::Limit)),
        Some(t) => measure_step(t, Measurement::String { depth, bytes }),
    }
}

/// The payload bytes the JSON budget has committed, zero when it does not
/// count them.
pub open spec fn payload_used(s: InputState) -> u64 {
    match structure_used_payload(s.structure) {
        Some(used) => used,
        None => 0,
    }
}

/// Admitting formatted text of `bytes` bytes: an empty probe of the same
/// kind must be admissible, the text must fit the tighter of what is left
/// of the payload and the per-value text bound, and then the text is
/// admitted as a number or a string.
pub open spec fn format_step(s: InputState, bytes: usize, number: bool, depth: usize) -> (
    InputState,
    Option<Refusal>,
) {
    if measured(s, formatted_measurement_of(number, depth, 0)) is None {
        (s, Some(Refusal::Limit))
    } else {
        match format_outcome_of(bytes as u64, payload_used(s), s.payload_limit, s.text_limit) {
            FormatOutcome::Fits { .. } => measure_step(
                s,
                formatted_measurement_of(number, depth, bytes),
            ),
            _ => (s, Some(Refusal::Limit)),
        }
    }
}

/// Carrying out what `a` asks for the node of `v`.
pub open spec fn admission_step(s: InputState, a: Admission, v: Visit) -> (
    InputState,
    Option<Refusal>,
) {
    match a {
        Admission::Admit(m) => measure_step(s, m),
        Admission::Text { bytes } => text_step(s, bytes, v.depth),
        Admission::Format { number } => format_step(s, v.formatted_bytes, number, v.depth),
        Admission::Reject(reason) => (s, Some(Refusal::Reject(reason))),
    }
}

/// Admitting one visited node: its key is taken from the input allowance
/// and admitted first, then the node as `node_admission_of` asks.
pub open spec fn visit_step(s: InputState, v: Visit) -> (InputState, Option<Refusal>) {
    let node = node_admission_of(v.overlay_bytes, v.node, v.depth);
    match v.key_bytes {
        None => admission_step(s, node, v),
        Some(k) => match charged(s, k as int) {
            None => (s, Some(Refusal::Limit)),
            Some(t) => match measured(t, Measurement::Key { bytes: k }) {
                None => (t, Some(Refusal::Limit)),
                Some(u) => admission_step(u, node, v),
            },
        },
    }
}

/// Admitting visits in order until the first refusal: the final state, and
/// the index and cause of the refusal, if any.
pub open spec fn walk(s: InputState, vs: Seq<Visit>) -> (InputState, Option<(int, Refusal)>)
    decreases vs.len(),
{
    if vs.len() == 0 {
        (s, None)
    } else {
        let before = walk(s, vs.drop_last());
        if before.1 is Some {
            before
        } else {
            let step = visit_step(before.0, vs.last());
            match step.1 {
                None => (step.0, None),
                Some(refusal) => (step.0, Some(((vs.len() - 1) as int, refusal))),
            }
        }
    }
}

/// The conversion error for a value of `data_type` rejected for `reason`.
pub open spec fn rejection_of(data_type: DataType, reason: RejectReason) -> DataConversionError {
    match reason {
        RejectReason::NonFinite => non_finite_conversion(data_type),
        RejectReason::Unsupported => unsupported_json_conversion(data_type),
    }
}

/// `e` reports `refusal` at the node of `v`: a budget refusal with the
/// node's path, index and type, or a conversion error to JSON at the node's
/// path and index.
pub open spec fn refused_as(e: InputAdmissionError, refusal: Refusal, v: Visit) -> bool {
    match refusal {
        Refusal::Limit => e matches InputAdmissionError::Limit {
            path,
            source_index,
            data_type,
            ..
        } && path@ == v.path@ && source_index == v.source_index && data_type == v.data_type,
        Refusal::Reject(reason) => e matches InputAdmissionError::Conversion(c)
            && c matches ConfigError::ConversionError { key, source_index, source } && key@
            == v.path@ && source_index == v.source_index && source == rejection_of(
            v.data_type,
            reason,
        ),
    }
}

/// `r` is what a step that ended with `refusal` returns at the node of `v`.
pub open spec fn outcome_matches(
    r: Result<(), InputAdmissionError>,
    refusal: Option<Refusal>,
    v: Visit,
) -> bool {
    match refusal {
        None => r is Ok,
        Some(f) => r matches Err(e) && refused_as(e, f, v),
    }
}

/// The bytes of a visit's key, zero when it has none.
pub open spec fn key_bytes_of(v: Visit) -> int {
    match v.key_bytes {
        Some(k) => k as int,
        None => 0,
    }
}

/// The bytes of text that stand for a visited node: its replacement text,
/// else the stored string, plain text or JSON string it is; `None` for a
/// node admitted otherwise.
pub open spec fn text_bytes_of(v: Visit) -> Option<int> {
    match v.overlay_bytes {
        Some(o) => Some(o as int),
        None => match v.node {
            NodeKind::Scalar(ScalarKind::Text { bytes }) => Some(bytes as int),
            NodeKind::Text { bytes } => Some(bytes as int),
            NodeKind::JsonString { bytes } => Some(bytes as int),
            _ => None,
        },
    }
}

/// A visit whose node is text takes its key and its text from the input
/// allowance: it is refused when they exceed what is left, and when it is
/// admitted exactly that many bytes are gone.
pub proof fn law_text_visits_take_their_bytes(s: InputState, v: Visit)
    requires
        text_bytes_of(v) is Some,
    ensures
        key_bytes_of(v) + text_bytes_of(v)->0 > s.input_left ==> visit_step(s, v).1 is Some,
        visit_step(s, v).1 is None ==> visit_step(s, v).0.input_left == s.input_left - key_bytes_of(v)
            - text_bytes_of(v)->0,
        visit_step(s, v).1 is None ==> visit_input(v) == key_bytes_of(v) + text_bytes_of(v)->0,
{
}

/// The input bytes that admitting `v` takes when it succeeds: its key and
/// the text that stands for it.
pub open spec fn visit_input(v: Visit) -> int {
    (match v.key_bytes {
        Some(k) => k as int,
        None => 0,
    }) + (match node_admission_of(v.overlay_bytes, v.node, v.depth) {
        Admission::Text { bytes } => bytes as int,
        _ => 0,
    })
}

/// The input bytes that admitting all of `vs` takes.
pub open spec fn total_input(vs: Seq<Visit>) -> int
    decreases vs.len(),
{
    if vs.len() == 0 {
        0
    } else {
        total_input(vs.drop_last()) + visit_input(vs.last())
    }
}

/// The display text of an integer: its decimal digits, after a minus sign
/// when negative.
pub open spec fn integer_text(value: int) -> Seq<char> {
    if value < 0 {
        "-"@ + decimal((-value) as nat)
    } else {
        decimal(value as nat)
    }
}

/// The budgets of a read made with `limits`: a fresh JSON budget and all
/// input bytes left.
pub open spec fn fresh_state(limits: AdmissionLimits) -> InputState {
    InputState {
        structure: fresh_structure_budget(limits),
        input_left: limits.input_bytes,
        payload_limit: limits.payload_bytes,
        text_limit: limits.max_text_bytes,
    }
}

/// The budgets of one structured read.
pub struct InputBudget {
    structure: StructureBudget,
    input: Allowance,
    payload_limit: u64,
    text_limit: u64,
}

impl View for InputBudget {
    type V = InputState;

    closed spec fn view(&self) -> InputState {
        InputState {
            structure: self.structure,
            input_left: allowance_remaining(self.input),
            payload_limit: self.payload_limit,
            text_limit: self.text_limit,
        }
    }
}

impl InputBudget {
    /// Creates the budgets of a read with `limits`: all input bytes are
    /// left, and nothing is committed to the JSON budget.
    pub fn new(limits: &AdmissionLimits) -> (r: Self)
        ensures
            r@ == fresh_state(*limits),
    {
        InputBudget {
            structure: new_structure_budget(limits),
            input: new_allowance(JsonResource::InputBytes, limits.input_bytes),
            payload_limit: limits.payload_bytes,
            text_limit: limits.max_text_bytes,
        }
    }

    /// Input bytes not taken yet.
    pub fn input_left(&self) -> (r: u64)
        ensures
            r == self@.input_left,
    {
        remaining(&self.input)
    }

    fn limit_error(v: &Visit, source: MeasuredBudgetError<JsonResource, u64>) -> (e:
        InputAdmissionError)
        ensures
            refused_as(e, Refusal::Limit, *v),
    {
        InputAdmissionError::Limit {
            path: owned(v.path.as_str()),
            source_index: v.source_index,
            data_type: v.data_type,
            source,
        }
    }

    fn rejection(v: &Visit, reason: RejectReason) -> (e: InputAdmissionError)
        ensures
            refused_as(e, Refusal::Reject(reason), *v),
    {
        let source = match reason {
            RejectReason::NonFinite => non_finite_error(v.data_type),
            RejectReason::Unsupported => unsupported_error(v.data_type),
        };
        let error = match v.source_index {
            Some(index) => ConfigError::ConversionError {
                key: owned(v.path.as_str()),
                source_index: Some(index),
                source,
            },
            None => ConfigError::from_data_conversion_error(v.path.as_str(), source),
        };
        InputAdmissionError::Conversion(error)
    }

    /// Takes `bytes` input bytes for the node of `v`; when fewer are left,
    /// fails with a budget refusal at that node and takes nothing.
    pub fn charge_input(&mut self, bytes: usize, v: &Visit) -> (r: Result<(), InputAdmissionError>)
        ensures
            final(self)@ == charge_step(old(self)@, bytes as int).0,
            outcome_matches(r, charge_step(old(self)@, bytes as int).1, *v),
            bytes <= old(self)@.input_left ==> r is Ok && final(self)@.input_left == old(self)@.input_left - bytes && final(self)@.structure == old(self)@.structure,
            bytes > old(self)@.input_left ==> r is Err && final(self)@ == old(self)@,
    {
        match take(&mut self.input, bytes as u64) {
            Ok(()) => Ok(()),
            Err(error) => Err(Self::limit_error(v, error)),
        }
    }

    /// Admits `m` into the JSON budget for the node of `v` and commits it;
    /// when the budget refuses it, fails with a budget refusal at that node
    /// and commits nothing.
    pub fn measure(&mut self, m: Measurement, v: &Visit) -> (r: Result<(), InputAdmissionError>)
        ensures
            final(self)@ == measure_step(old(self)@, m).0,
            outcome_matches(r, measure_step(old(self)@, m).1, *v),
            final(self)@.input_left == old(self)@.input_left,
            structure_admission(old(self)@.structure, m) matches Some(after) ==> r is Ok && final(self)@.structure == after,
            structure_admission(old(self)@.structure, m) is None ==> r is Err && final(self)@ == old(self)@,
    {
        match structure_admit(&mut self.structure, m) {
            Ok(()) => Ok(()),
            Err(error) => Err(Self::limit_error(v, error)),
        }
    }

    /// Admits text of `bytes` bytes for the node of `v`: takes the bytes
    /// from the input allowance, then admits them as a string.
    pub fn admit_text(&mut self, bytes: usize, v: &Visit) -> (r: Result<(), InputAdmissionError>)
        ensures
            final(self)@ == text_step(old(self)@, bytes, v.depth).0,
            outcome_matches(r, text_step(old(self)@, bytes, v.depth).1, *v),
            bytes > old(self)@.input_left ==> r is Err && final(self)@ == old(self)@,
            bytes <= old(self)@.input_left ==> {
                &&& final(self)@.input_left == old(self)@.input_left - bytes
                &&& structure_admission(old(self)@.structure, Measurement::String { depth: v.depth, bytes })
                    matches Some(after) ==> r is Ok && final(self)@.structure == after
                &&& structure_admission(old(self)@.structure, Measurement::String { depth: v.depth, bytes })
                    is None ==> r is Err && final(self)@.structure == old(self)@.structure
            },
    {
        let charged = self.charge_input(bytes, v);
        if charged.is_err() {
            return charged;
        }
        self.measure(Measurement::String { depth: v.depth, bytes }, v)
    }

    /// Admits a value by its display text of `bytes` bytes, as a number or
    /// a string: an empty probe of that kind must be admissible; the text
    /// is then bounded by the tighter of the payload left and the per-value
    /// text limit, and admitted when it fits.
    pub fn admit_formatted(&mut self, bytes: usize, number: bool, v: &Visit) -> (r: Result<
        (),
        InputAdmissionError,
    >)
        ensures
            final(self)@ == format_step(old(self)@, bytes, number, v.depth).0,
            outcome_matches(r, format_step(old(self)@, bytes, number, v.depth).1, *v),
    {
        let probe = formatted_measurement(number, v.depth, 0);
        let probed = structure_probe(&mut self.structure, probe);
        if let Err(error) = probed {
            return Err(Self::limit_error(v, error));
        }
        let used = match used_payload(&self.structure) {
            Some(used) => used,
            None => 0,
        };
        let mut bound = new_allowance(JsonResource::PayloadBytes, self.payload_limit);
        let spent = take(&mut bound, used);
        if let Err(error) = spent {
            return Err(Self::limit_error(v, error));
        }
        let text = new_allowance(JsonResource::StringBytes, self.text_limit);
        if remaining(&text) < remaining(&bound) {
            bound = text;
        }
        let counted = take(&mut bound, bytes as u64);
        if let Err(error) = counted {
            return Err(Self::limit_error(v, error));
        }
        self.measure(formatted_measurement(number, v.depth, bytes), v)
    }

    /// Admits a signed integer by its display text, as a number: the text
    /// is the decimal digits, after a minus sign when negative.
    pub fn admit_signed(&mut self, value: i64, v: &Visit) -> (r: Result<(), InputAdmissionError>)
        ensures
            final(self)@ == format_step(
                old(self)@,
                utf8_len(integer_text(value as int)) as usize,
                true,
                v.depth,
            ).0,
            outcome_matches(
                r,
                format_step(
                    old(self)@,
                    utf8_len(integer_text(value as int)) as usize,
                    true,
                    v.depth,
                ).1,
                *v,
            ),
    {
        let text = if value < 0 {
            let magnitude: u64 = (-(value + 1)) as u64 + 1;
            proof {
                reveal_strlit("-");
            }
            concat("-", decimal_string(magnitude).as_str())
        } else {
            decimal_string(value as u64)
        };
        let bytes = byte_len(text.as_str());
        self.admit_formatted(bytes, true, v)
    }

    /// Admits an unsigned integer by its display text, its decimal digits,
    /// as a number.
    pub fn admit_unsigned(&mut self, value: u64, v: &Visit) -> (r: Result<
        (),
        InputAdmissionError,
    >)
        ensures
            final(self)@ == format_step(
                old(self)@,
                utf8_len(integer_text(value as int)) as usize,
                true,
                v.depth,
            ).0,
            outcome_matches(
                r,
                format_step(
                    old(self)@,
                    utf8_len(integer_text(value as int)) as usize,
                    true,
                    v.depth,
                ).1,
                *v,
            ),
    {
        let text = decimal_string(value);
        let bytes = byte_len(text.as_str());
        self.admit_formatted(bytes, true, v)
    }

    fn apply(&mut self, a: Admission, v: &Visit) -> (r: Result<(), InputAdmissionError>)
        ensures
            final(self)@ == admission_step(old(self)@, a, *v).0,
            outcome_matches(r, admission_step(old(self)@, a, *v).1, *v),
    {
        match a {
            Admission::Admit(m) => self.measure(m, v),
            Admission::Text { bytes } => self.admit_text(bytes, v),
            Admission::Format { number } => self.admit_formatted(v.formatted_bytes, number, v),
            Admission::Reject(reason) => Err(Self::rejection(v, reason)),
        }
    }

    /// Admits a stored scalar of `kind` at the node of `v`, as
    /// `scalar_admission` decides: a value without JSON form or a
    /// non-finite float fails with a conversion error at the node and
    /// changes no budget.
    pub fn admit_scalar(&mut self, kind: ScalarKind, v: &Visit) -> (r: Result<(), InputAdmissionError>)
        ensures
            final(self)@ == admission_step(old(self)@, scalar_admission_of(kind, v.depth), *v).0,
            outcome_matches(
                r,
                admission_step(old(self)@, scalar_admission_of(kind, v.depth), *v).1,
                *v,
            ),
    {
        let a = scalar_admission(kind, v.depth);
        self.apply(a, v)
    }

    /// Admits one visited node: its key first, taken from the input
    /// allowance and admitted as a key, then the node itself.
    pub fn admit_visit(&mut self, v: &Visit) -> (r: Result<(), InputAdmissionError>)
        ensures
            final(self)@ == visit_step(old(self)@, *v).0,
            outcome_matches(r, visit_step(old(self)@, *v).1, *v),
            text_bytes_of(*v) matches Some(bytes) ==> {
                &&& key_bytes_of(*v) + bytes > old(self)@.input_left ==> r is Err
                &&& r is Ok ==> final(self)@.input_left == old(self)@.input_left - key_bytes_of(*v)
                    - bytes
            },
    {
        let node = visit_admission(v.key_bytes, v.overlay_bytes, v.node, v.depth).node;
        if let Some(k) = v.key_bytes {
            let charged = self.charge_input(k, v);
            if charged.is_err() {
                return charged;
            }
            let admitted = self.measure(Measurement::Key { bytes: k }, v);
            if admitted.is_err() {
                return admitted;
            }
        }
        self.apply(node, v)
    }

    /// Admits `visits` in order and stops at the first refusal, which it
    /// returns; what was admitted before it stays committed.
    pub fn admit_all(&mut self, visits: &Vec<Visit>) -> (r: Result<(), InputAdmissionError>)
        ensures
            final(self)@ == walk(old(self)@, visits@).0,
            match walk(old(self)@, visits@).1 {
                None => r is Ok,
                Some((i, refusal)) => 0 <= i < visits.len() && (r matches Err(e) && refused_as(
                    e,
                    refusal,
                    visits@[i],
                )),
            },
    {
        let ghost start = self@;
        let mut i: usize = 0;
        while i < visits.len()
            invariant
                0 <= i <= visits.len(),
                start == old(self)@,
                self@ == walk(start, visits@.take(i as int)).0,
                walk(start, visits@.take(i as int)).1 is None,
            decreases visits.len() - i,
        {
            proof {
                assert(visits@.take(i as int + 1).drop_last() == visits@.take(i as int));
            }
            let ghost before = self@;
            let r = self.admit_visit(&visits[i]);
            if r.is_err() {
                proof {
                    assert(visits@.take(i as int + 1).last() == visits@[i as int]);
                    assert(visit_step(before, visits@[i as int]).1 is Some);
                    assert(walk(start, visits@.take(i as int + 1)).1 is Some);
                    lemma_walk_stays_refused(start, visits@, i as int + 1, visits.len() as int);
                    assert(visits@.take(visits.len() as int) == visits@);
                    assert(walk(start, visits@) == walk(start, visits@.take(i as int + 1)));
                }
                return r;
            }
            i = i + 1;
        }
        proof {
            assert(visits@.take(visits.len() as int) == visits@);
        }
        Ok(())
    }
}

/// Once a prefix of the visits is refused, admitting more of them changes
/// nothing.
proof fn lemma_walk_stays_refused(s: InputState, vs: Seq<Visit>, j: int, n: int)
    requires
        0 <= j <= n <= vs.len(),
        walk(s, vs.take(j)).1 is Some,
    ensures
        walk(s, vs.take(n)) == walk(s, vs.take(j)),
    decreases n - j,
{
    if n > j {
        lemma_walk_stays_refused(s, vs, j, n - 1);
        assert(vs.take(n).drop_last() == vs.take(n - 1));
    }
}

/// An admitted visit takes exactly its key and its text from the input
/// allowance.
proof fn lemma_visit_input(s: InputState, v: Visit)
    requires
        visit_step(s, v).1 is None,
    ensures
        visit_step(s, v).0.input_left == s.input_left - visit_input(v),
{
}

/// The input bytes of all the visits of an admitted read fit the input
/// allowance it started with, and exactly that many are taken from it.
pub proof fn law_admitted_input_within_allowance(s: InputState, vs: Seq<Visit>)
    requires
        walk(s, vs).1 is None,
    ensures
        total_input(vs) <= s.input_left,
        walk(s, vs).0.input_left == s.input_left - total_input(vs),
    decreases vs.len(),
{
    if vs.len() > 0 {
        law_admitted_input_within_allowance(s, vs.drop_last());
        lemma_visit_input(walk(s, vs.drop_last()).0, vs.last());
    }
}

/// Along an admitted read, the input bytes left never grow, and each text
/// visit's key and text fit what the read started with.
proof fn lemma_admitted_texts_fit(s: InputState, vs: Seq<Visit>)
    requires
        walk(s, vs).1 is None,
    ensures
        walk(s, vs).0.input_left <= s.input_left,
        forall|i: int|
            0 <= i < vs.len() ==> (#[trigger] text_bytes_of(vs[i]) matches Some(b) ==> key_bytes_of(
                vs[i],
            ) + b <= s.input_left),
    decreases vs.len(),
{
    if vs.len() > 0 {
        let prefix = vs.drop_last();
        lemma_admitted_texts_fit(s, prefix);
        let before = walk(s, prefix).0;
        lemma_visit_input(before, vs.last());
        if text_bytes_of(vs.last()) is Some {
            law_text_visits_take_their_bytes(before, vs.last());
        }
        assert forall|i: int|
            0 <= i < vs.len() implies (#[trigger] text_bytes_of(vs[i]) matches Some(b)
                ==> key_bytes_of(vs[i]) + b <= s.input_left) by {
            if i < vs.len() - 1 {
                assert(vs[i] == prefix[i]);
            }
        }
    }
}

/// Admits the input of a structured read, visit by visit, against fresh
/// budgets made with `limits`: it succeeds exactly when those budgets admit
/// every visit in order, and then the input bytes of all the visits fit
/// `limits.input_bytes`; otherwise it reports the first refusal at its
/// visit.
pub fn admit_input(visits: &Vec<Visit>, limits: &AdmissionLimits) -> (r: Result<
    (),
    InputAdmissionError,
>)
    ensures
        r is Ok <==> walk(fresh_state(*limits), visits@).1 is None,
        r is Ok ==> forall|i: int|
            0 <= i < visits.len() ==> (#[trigger] text_bytes_of(visits@[i]) matches Some(b)
                ==> key_bytes_of(visits@[i]) + b <= limits.input_bytes),
        match walk(fresh_state(*limits), visits@).1 {
            None => total_input(visits@) <= limits.input_bytes,
            Some((i, refusal)) => 0 <= i < visits.len() && (r matches Err(e) && refused_as(
                e,
                refusal,
                visits@[i],
            )),
        },
{
    let mut budget = InputBudget::new(limits);
    let ghost start = budget@;
    let r = budget.admit_all(visits);
    proof {
        if r is Ok {
            law_admitted_input_within_allowance(start, visits@);
            lemma_admitted_texts_fit(start, visits@);
        }
    }
    r
}

} // verus!
