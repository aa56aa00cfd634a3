//! Whether a stored property counts as missing for a read: unset storage,
//! or a scalar string that the read's string rules turn into no value.

use vstd::prelude::*;

use qubit_datatype::ConversionPolicy;

use crate::options::ReadPolicy;
use crate::property::container_is_unset;
use crate::property::container_is_unset_of;
use crate::property::container_scalar_string;
use crate::property::scalar_string;
use crate::property::Property;

verus! {

/// Whether the string rules of `policy` normalize `text` to no value.
pub uninterp spec fn normalizes_to_missing(policy: ConversionPolicy, text: Seq<char>) -> bool;

/// Whether the string rules of `policy` normalize `text` to no value.
///
/// Calls `StringConversionPolicy::normalize_optional` on the policy's
/// string rules and tests for `Ok(None)`, which it returns exactly when the
/// normalization reports the value missing (a blank string under
/// blank-as-missing rules). The answer is a function of the policy and the
/// text, named `normalizes_to_missing`.
#[verifier::external_body]
fn string_normalizes_to_missing(policy: &ConversionPolicy, text: &str) -> (r: bool)
    ensures
        r == normalizes_to_missing(*policy, text@),
{
    matches!(policy.string().normalize_optional(text), Ok(None))
}

/// Whether `property` counts as missing under `options`.
pub open spec fn effectively_missing(property: Property, options: ReadPolicy) -> bool {
    ||| container_is_unset_of(property.spec_value())
    ||| match container_scalar_string(property.spec_value()) {
        Some(text) => normalizes_to_missing(options.spec_conversion(), text),
        None => false,
    }
}

/// Unset storage is missing; a property that is set and holds no scalar
/// string (a concrete collection, empty or not, or a scalar of another
/// type) is present; a set scalar string is missing exactly when the string
/// rules normalize it to no value.
pub proof fn law_missing_means_unset_or_normalized_away(property: Property, options: ReadPolicy)
    ensures
        container_is_unset_of(property.spec_value()) ==> effectively_missing(property, options),
        !container_is_unset_of(property.spec_value()) && container_scalar_string(
            property.spec_value(),
        ) is None ==> !effectively_missing(property, options),
        !container_is_unset_of(property.spec_value()) ==> (container_scalar_string(
            property.spec_value(),
        ) matches Some(text) ==> (effectively_missing(property, options) <==> normalizes_to_missing(
            options.spec_conversion(),
            text,
        ))),
{
}

/// Returns whether `property` counts as missing under `options`, without
/// substituting variables: unset storage is missing, a scalar string is
/// missing when the conversion policy's string rules normalize it to no
/// value, and anything else (an empty collection included) is present.
pub fn is_effectively_missing(property: &Property, options: &ReadPolicy) -> (r: bool)
    ensures
        r == effectively_missing(*property, *options),
        container_is_unset_of(property.spec_value()) ==> r,
        !container_is_unset_of(property.spec_value()) && container_scalar_string(
            property.spec_value(),
        ) is None ==> !r,
        !container_is_unset_of(property.spec_value()) ==> (container_scalar_string(
            property.spec_value(),
        ) matches Some(text) ==> r == normalizes_to_missing(options.spec_conversion(), text)),
{
    if container_is_unset(property.value()) {
        return true;
    }
    match scalar_string(property.value()) {
        Some(text) => string_normalizes_to_missing(options.conversion_options(), text),
        None => false,
    }
}

} // verus!
