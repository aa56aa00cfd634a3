//! The budgets of `qubit-budget` that bound the input of a structured read:
//! a byte allowance that charges are taken from, and a JSON value budget
//! that admits measured nodes.
//!
//! Each budget is held in a private field of an opaque struct of this
//! module; what the library knows of it is what the trusted functions below
//! state.

use vstd::prelude::*;

use qubit_budget::json::JsonMeasurement;
use qubit_budget::json::JsonResource;
use qubit_budget::json::JsonValueBudget;
use qubit_budget::json::JsonValueLimits;
use qubit_budget::MeasuredBudgetError;
use qubit_budget::ResourceBudget;
use qubit_datatype::DataConversionError;
use qubit_datatype::DataType;
use qubit_datatype::InvalidValueReason;

use crate::admission::Measurement;
use crate::error::conversion_is_missing;

verus! {

/// A budget refusal of `qubit-budget`: the resource, its limit and the
/// refused quantity, carried through errors unchanged.
#[verifier::external_type_specification]
#[verifier::external_body]
#[verifier::reject_recursive_types(R)]
#[verifier::reject_recursive_types(Q)]
pub struct ExMeasuredBudgetError<R, Q>(MeasuredBudgetError<R, Q>) where Q: Copy + std::fmt::Debug;

/// The resources of JSON accounting.
#[verifier::external_type_specification]
pub struct ExJsonResource(JsonResource);

/// A native measurement of one JSON node in `qubit-budget`.
#[verifier::external_type_specification]
#[verifier::external_body]
pub struct ExJsonMeasurement(JsonMeasurement);

/// A finite allowance of one JSON resource, counted in bytes.
#[verifier::external_body]
pub struct Allowance {
    budget: ResourceBudget<JsonResource, u64>,
}

/// The capacity of an allowance that is not consumed yet.
pub uninterp spec fn allowance_remaining(allowance: Allowance) -> u64;

/// Creates an allowance of `limit` bytes of `resource`.
///
/// Calls `ResourceBudget::new`, whose remaining capacity starts at `limit`.
#[verifier::external_body]
pub(crate) fn new_allowance(resource: JsonResource, limit: u64) -> (r: Allowance)
    ensures
        allowance_remaining(r) == limit,
{
    Allowance { budget: ResourceBudget::new(resource, limit) }
}

/// The capacity of an allowance that is not consumed yet.
///
/// Calls `ResourceBudget::remaining`, which returns that capacity.
#[verifier::external_body]
pub(crate) fn remaining(allowance: &Allowance) -> (r: u64)
    ensures
        r == allowance_remaining(*allowance),
{
    allowance.budget.remaining()
}

/// Takes `amount` bytes from an allowance.
///
/// Calls `ResourceBudget::try_consume_u64`: converting a `u64` to the `u64`
/// quantity cannot fail, and the charge succeeds exactly when `amount` is at
/// most the remaining capacity, which it then lowers by `amount`; on a
/// refusal the allowance is unchanged. What the refusal holds (resource,
/// limit, remaining and requested quantities) is not stated.
#[verifier::external_body]
pub(crate) fn take(allowance: &mut Allowance, amount: u64) -> (r: Result<
    (),
    MeasuredBudgetError<JsonResource, u64>,
>)
    ensures
        r is Ok <==> amount <= allowance_remaining(*old(allowance)),
        r is Ok ==> allowance_remaining(*final(allowance)) == allowance_remaining(*old(allowance))
            - amount,
        r is Err ==> *final(allowance) == *old(allowance),
{
    allowance.budget.try_consume_u64(amount)
}

/// The committed accounting of the JSON nodes of one structured value.
#[verifier::external_body]
pub struct StructureBudget {
    budget: JsonValueBudget<JsonResource, u64>,
}

/// The accounting after `measurement` is admitted into `budget`, or `None`
/// when the budget refuses it.
pub uninterp spec fn structure_admission(budget: StructureBudget, measurement: Measurement) -> Option<
    StructureBudget,
>;

/// The payload bytes a JSON value budget has committed, when it counts them.
pub uninterp spec fn structure_used_payload(budget: StructureBudget) -> Option<u64>;

/// The JSON measurement of `qubit-budget` that a measurement stands for,
/// variant for variant and field for field.
#[verifier::external_body]
fn json_measurement(measurement: Measurement) -> JsonMeasurement {
    match measurement {
        Measurement::Null { depth } => JsonMeasurement::Null { depth },
        Measurement::Boolean { depth } => JsonMeasurement::Boolean { depth },
        Measurement::String { depth, bytes } => JsonMeasurement::String { depth, bytes },
        Measurement::Number { depth, bytes } => JsonMeasurement::Number { depth, bytes },
        Measurement::Array { depth, items } => JsonMeasurement::Array { depth, items },
        Measurement::Object { depth, entries } => JsonMeasurement::Object { depth, entries },
        Measurement::Key { bytes } => JsonMeasurement::Key { bytes },
    }
}

/// The fresh JSON value budget made with `limits`, nothing committed.
pub uninterp spec fn fresh_structure_budget(limits: crate::input_budget::AdmissionLimits) -> StructureBudget;

/// Creates a JSON value budget with the given limits.
///
/// Builds `JsonValueLimits` with `max_depth`, `max_nodes`,
/// `max_sequence_items`, `max_map_entries`, `max_key_bytes`,
/// `max_string_bytes`, `max_number_bytes` and `max_payload_bytes`, then
/// calls `JsonValueBudget::new`. Both steps only store the limits and set
/// the committed accounting to none, so the budget is a function of the
/// limits alone, named `fresh_structure_budget`.
#[verifier::external_body]
pub(crate) fn new_structure_budget(limits: &crate::input_budget::AdmissionLimits) -> (r: StructureBudget)
    ensures
        r == fresh_structure_budget(*limits),
{
    let limits = JsonValueLimits::<JsonResource, u64>::builder().max_depth(limits.max_depth).max_nodes(
        limits.max_nodes,
    ).max_sequence_items(limits.max_sequence_items).max_map_entries(limits.max_map_entries).max_key_bytes(
        limits.max_key_bytes,
    ).max_string_bytes(limits.max_string_bytes).max_number_bytes(limits.max_number_bytes).max_payload_bytes(
        limits.payload_bytes,
    ).build();
    StructureBudget { budget: JsonValueBudget::new(limits) }
}

/// Admits one measurement and commits it.
///
/// Opens a `JsonValueBudget` transaction, calls `try_admit` and then
/// `commit`, as one step. A fresh transaction has no earlier failure, so
/// the outcome depends on the budget and the measurement alone: it is named
/// `structure_admission`. On a refusal the transaction is dropped and the
/// committed accounting is unchanged.
#[verifier::external_body]
pub(crate) fn structure_admit(budget: &mut StructureBudget, measurement: Measurement) -> (r: Result<
    (),
    MeasuredBudgetError<JsonResource, u64>,
>)
    ensures
        match structure_admission(*old(budget), measurement) {
            Some(after) => r is Ok && *final(budget) == after,
            None => r is Err && *final(budget) == *old(budget),
        },
{
    let mut transaction = budget.budget.transaction();
    let measurement = json_measurement(measurement);
    transaction.try_admit(measurement).and_then(|()| transaction.commit())
}

/// Checks one measurement without committing it.
///
/// Opens a `JsonValueBudget` transaction, calls `try_admit` and drops the
/// transaction: the answer is whether the measurement would be admitted,
/// and the committed accounting stays as it was.
#[verifier::external_body]
pub(crate) fn structure_probe(budget: &mut StructureBudget, measurement: Measurement) -> (r: Result<
    (),
    MeasuredBudgetError<JsonResource, u64>,
>)
    ensures
        r is Ok <==> structure_admission(*old(budget), measurement) is Some,
        *final(budget) == *old(budget),
{
    let measurement = json_measurement(measurement);
    budget.budget.transaction().try_admit(measurement)
}

/// The payload bytes a JSON value budget has committed.
///
/// Calls `JsonValueBudget::used_payload_bytes`, `None` when the budget has
/// no payload limit.
#[verifier::external_body]
pub(crate) fn used_payload(budget: &StructureBudget) -> (r: Option<u64>)
    ensures
        r == structure_used_payload(*budget),
{
    budget.budget.used_payload_bytes()
}

/// The conversion error for a non-finite value of `data_type` projected to
/// JSON.
pub uninterp spec fn non_finite_conversion(data_type: DataType) -> DataConversionError;

/// The conversion error for a non-finite value of `data_type` projected to
/// JSON.
///
/// Calls `DataConversionError::invalid` from `data_type` to `DataType::Json`
/// with `InvalidValueReason::NonFinite`. Such an error is an invalid-value
/// one, so `is_missing` is false of it.
#[verifier::external_body]
pub(crate) fn non_finite_error(data_type: DataType) -> (r: DataConversionError)
    ensures
        r == non_finite_conversion(data_type),
        !conversion_is_missing(r),
{
    DataConversionError::invalid(data_type, DataType::Json, InvalidValueReason::NonFinite)
}

/// The conversion error for a value of `data_type` that has no JSON form.
pub uninterp spec fn unsupported_json_conversion(data_type: DataType) -> DataConversionError;

/// The conversion error for a value of `data_type` that has no JSON form.
///
/// Calls `DataConversionError::unsupported` from `data_type` to
/// `DataType::Json`. Such an error is an unsupported-conversion one, so
/// `is_missing` is false of it.
#[verifier::external_body]
pub(crate) fn unsupported_error(data_type: DataType) -> (r: DataConversionError)
    ensures
        r == unsupported_json_conversion(data_type),
        !conversion_is_missing(r),
{
    DataConversionError::unsupported(data_type, DataType::Json)
}

} // verus!
