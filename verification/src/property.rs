//! Configuration properties: a name, a typed value, a description, and
//! whether the property is final.

use vstd::prelude::*;

use qubit_datatype::DataType;
use qubit_value::ValueContainer;
use qubit_value::ValueError;
use qubit_value::ValueRef;


verus! {

/// The scalar-or-collection typed value storage of `qubit-value`.
#[verifier::external_type_specification]
#[verifier::external_body]
pub struct ExValueContainer(ValueContainer);

/// The number of concrete values that a container holds: zero when unset,
/// one for a concrete scalar, the collection length otherwise.
pub uninterp spec fn container_len(values: ValueContainer) -> nat;

/// Counts the concrete values of a container.
///
/// Calls `ValueContainer::len`, which returns zero for unset storage, one for
/// a concrete scalar and the collection length otherwise; the contract names
/// that number.
#[verifier::external_body]
pub(crate) fn container_count(values: &ValueContainer) -> (n: usize)
    ensures
        n == container_len(*values),
{
    values.len()
}

/// The data type that a container stores or declares.
pub uninterp spec fn container_type(values: ValueContainer) -> DataType;

/// Whether a container's storage is unset.
pub uninterp spec fn container_is_unset_of(values: ValueContainer) -> bool;

/// Whether a container's storage is unset.
///
/// Calls `ValueContainer::is_unset`, true for unset scalar or collection
/// storage (not for a concrete empty collection). Unset storage counts no
/// concrete values, so `len` is then zero.
#[verifier::external_body]
pub(crate) fn container_is_unset(values: &ValueContainer) -> (r: bool)
    ensures
        r == container_is_unset_of(*values),
        r ==> container_len(*values) == 0,
{
    values.is_unset()
}

/// The string that a container holds as a concrete scalar, if it holds one.
pub uninterp spec fn container_scalar_string(values: ValueContainer) -> Option<Seq<char>>;

/// The string that a container holds as a concrete scalar.
///
/// Calls `ValueContainer::as_scalar` and `Value::view`, keeping the
/// `ValueRef::String` case: `None` for collections, unset storage and
/// scalars of any other type.
#[verifier::external_body]
pub(crate) fn scalar_string(values: &ValueContainer) -> (r: Option<&str>)
    ensures
        match container_scalar_string(*values) {
            Some(text) => r matches Some(s) && s@ == text,
            None => r is None,
        },
{
    match values.as_scalar() {
        Some(value) => match value.view() {
            ValueRef::String(text) => Some(text),
            _ => None,
        },
        None => None,
    }
}

/// The container that appending `more` to `values` leaves.
pub uninterp spec fn container_after_add(values: ValueContainer, more: ValueContainer) -> ValueContainer;

/// The outcome of appending `more` to `values`.
pub uninterp spec fn container_add_outcome(values: ValueContainer, more: ValueContainer) -> Result<
    (),
    ValueError,
>;

/// Removes the concrete storage of a container.
///
/// Calls `ValueContainer::unset`, documented to remove the concrete storage
/// while preserving the container's shape and data type, so that it is
/// unset, its length is zero and its data type unchanged.
#[verifier::external_body]
pub(crate) fn container_unset(values: &mut ValueContainer)
    ensures
        container_len(*final(values)) == 0,
        container_is_unset_of(*final(values)),
        container_type(*final(values)) == container_type(*old(values)),
{
    values.unset();
}

/// Appends values to a container.
///
/// Calls `ValueContainer::add`, whose outcome and resulting container are
/// functions of the two containers alone (named `container_add_outcome` and
/// `container_after_add`). Its documentation and source show that it fails,
/// leaving the container as it was, when the two data types differ.
#[verifier::external_body]
pub(crate) fn container_add(values: &mut ValueContainer, more: ValueContainer) -> (r: Result<(), ValueError>)
    ensures
        r == container_add_outcome(*old(values), more),
        *final(values) == container_after_add(*old(values), more),
        container_type(*old(values)) != container_type(more) ==> r is Err && *final(values)
            == *old(values),
{
    values.add(more)
}

/// The data type stored or declared by a container.
///
/// Calls `ValueContainer::data_type`, which returns the scalar or element
/// type, including the declared type of unset storage.
#[verifier::external_body]
pub(crate) fn container_data_type(values: &ValueContainer) -> (t: DataType)
    ensures
        t == container_type(*values),
{
    values.data_type()
}

/// An unset scalar container of the given declared type.
///
/// Calls `ValueContainer::new_unset_scalar`, documented to create a scalar
/// container with explicit unset storage for the declared type: it holds no
/// concrete value, is unset, and reports that type.
#[verifier::external_body]
pub(crate) fn unset_scalar(data_type: DataType) -> (values: ValueContainer)
    ensures
        container_len(values) == 0,
        container_is_unset_of(values),
        container_type(values) == data_type,
{
    ValueContainer::new_unset_scalar(data_type)
}

/// The derived `Clone` of `ValueContainer` copies every field, so the copy
/// equals the value it was made from.
pub assume_specification[ <ValueContainer as Clone>::clone ](values: &ValueContainer) -> (copy:
    ValueContainer)
    ensures
        copy == *values,
;

/// Configuration property: a named value with an optional description and a
/// final flag. Final properties cannot be overridden through a `Config`.
#[derive(Debug, Clone)]
pub struct Property {
    name: String,
    value: ValueContainer,
    description: Option<String>,
    is_final: bool,
}

impl Property {
    /// The property name.
    pub closed spec fn spec_name(&self) -> Seq<char> {
        self.name@
    }

    /// The property value.
    pub closed spec fn spec_value(&self) -> ValueContainer {
        self.value
    }

    /// The property description.
    pub closed spec fn spec_description(&self) -> Option<Seq<char>> {
        match self.description {
            Some(d) => Some(d@),
            None => None,
        }
    }

    /// Whether the property is final.
    pub closed spec fn spec_is_final(&self) -> bool {
        self.is_final
    }

    /// Creates an unset property whose declared value type is `i32`.
    pub fn new(name: String) -> (p: Property)
        ensures
            p.spec_name() == name@,
            container_len(p.spec_value()) == 0,
            container_type(p.spec_value()) == DataType::Int32,
            p.spec_description() is None,
            !p.spec_is_final(),
    {
        let value = unset_scalar(DataType::Int32);
        Property { name, value, description: None, is_final: false }
    }

    /// Creates a non-final property holding `value`, without description.
    pub fn with_value(name: String, value: ValueContainer) -> (p: Property)
        ensures
            p.spec_name() == name@,
            p.spec_value() == value,
            p.spec_description() is None,
            !p.spec_is_final(),
    {
        Property { name, value, description: None, is_final: false }
    }

    /// Returns the property name.
    pub fn name(&self) -> (s: &str)
        ensures
            s@ == self.spec_name(),
    {
        self.name.as_str()
    }

    /// Returns the property value.
    pub fn value(&self) -> (v: &ValueContainer)
        ensures
            *v == self.spec_value(),
    {
        &self.value
    }

    /// Returns mutable access to the property value; the name, description
    /// and final flag stay as they are.
    pub fn value_mut(&mut self) -> (v: &mut ValueContainer)
        ensures
            *v == old(self).spec_value(),
            final(self).spec_value() == *final(v),
            final(self).spec_name() == old(self).spec_name(),
            final(self).spec_description() == old(self).spec_description(),
            final(self).spec_is_final() == old(self).spec_is_final(),
    {
        &mut self.value
    }

    /// Replaces the property value.
    pub fn set_value(&mut self, value: ValueContainer)
        ensures
            final(self).spec_value() == value,
            final(self).spec_name() == old(self).spec_name(),
            final(self).spec_description() == old(self).spec_description(),
            final(self).spec_is_final() == old(self).spec_is_final(),
    {
        self.value = value;
    }

    /// Returns the property description.
    pub fn description(&self) -> (d: Option<&str>)
        ensures
            d matches Some(s) ==> self.spec_description() == Some(s@),
            d is None ==> self.spec_description() is None,
    {
        match &self.description {
            Some(d) => Some(d.as_str()),
            None => None,
        }
    }

    /// Replaces the property description.
    pub fn set_description(&mut self, description: Option<String>)
        ensures
            final(self).spec_description() == (match description {
                Some(d) => Some(d@),
                None => None::<Seq<char>>,
            }),
            final(self).spec_name() == old(self).spec_name(),
            final(self).spec_value() == old(self).spec_value(),
            final(self).spec_is_final() == old(self).spec_is_final(),
    {
        self.description = description;
    }

    /// Returns whether the property is final.
    pub fn is_final(&self) -> (b: bool)
        ensures
            b == self.spec_is_final(),
    {
        self.is_final
    }

    /// Sets whether the property is final.
    pub fn set_final(&mut self, is_final: bool)
        ensures
            final(self).spec_is_final() == is_final,
            final(self).spec_name() == old(self).spec_name(),
            final(self).spec_value() == old(self).spec_value(),
            final(self).spec_description() == old(self).spec_description(),
    {
        self.is_final = is_final;
    }

    /// Returns the data type of the property value.
    pub fn data_type(&self) -> (t: DataType)
        ensures
            t == container_type(self.spec_value()),
    {
        container_data_type(&self.value)
    }

    /// Returns the number of concrete values in the property.
    pub fn count(&self) -> (n: usize)
        ensures
            n == container_len(self.spec_value()),
    {
        container_count(&self.value)
    }

    /// Returns whether the property holds no concrete value: unset, or an
    /// empty collection.
    pub fn is_empty(&self) -> (b: bool)
        ensures
            b == (container_len(self.spec_value()) == 0),
    {
        self.count() == 0
    }

    /// Clears the property value while keeping everything else.
    pub fn clear(&mut self)
        ensures
            container_len(final(self).spec_value()) == 0,
            container_type(final(self).spec_value()) == container_type(old(self).spec_value()),
            final(self).spec_name() == old(self).spec_name(),
            final(self).spec_description() == old(self).spec_description(),
            final(self).spec_is_final() == old(self).spec_is_final(),
    {
        container_unset(&mut self.value);
    }

    /// Appends values to the property value; name, description and final
    /// flag stay as they are.
    pub fn add(&mut self, more: ValueContainer) -> (r: Result<(), ValueError>)
        ensures
            r == container_add_outcome(old(self).spec_value(), more),
            final(self).spec_value() == container_after_add(old(self).spec_value(), more),
            final(self).spec_name() == old(self).spec_name(),
            final(self).spec_description() == old(self).spec_description(),
            final(self).spec_is_final() == old(self).spec_is_final(),
    {
        container_add(&mut self.value, more)
    }

    /// A copy of this property.
    pub fn duplicate(&self) -> (p: Property)
        ensures
            p == *self,
    {
        let description = match &self.description {
            Some(d) => Some(d.clone()),
            None => None,
        };
        Property {
            name: self.name.clone(),
            value: self.value.clone(),
            description,
            is_final: self.is_final,
        }
    }

    /// A copy of this property under another name.
    pub fn renamed(&self, name: String) -> (p: Property)
        ensures
            p.spec_name() == name@,
            p.spec_value() == self.spec_value(),
            p.spec_description() == self.spec_description(),
            p.spec_is_final() == self.spec_is_final(),
    {
        let mut p = self.duplicate();
        p.name = name;
        p
    }
}

} // verus!
