//! What a structured read's value deserializer hands its visitor, decided
//! from the shape of the JSON value it holds.

use vstd::prelude::*;

verus! {

/// The shape of a JSON value held by a value deserializer.
#[derive(Debug, Clone, Copy, PartialEq, Eq, Structural)]
pub enum JsonShape {
    /// `null`.
    Null,
    /// A boolean.
    Bool(bool),
    /// A number that fits a signed 64-bit integer.
    Int64(i64),
    /// A number that fits an unsigned 64-bit integer and not a signed one.
    UInt64(u64),
    /// Any other number.
    Float,
    /// A string.
    String,
    /// An array.
    Array,
    /// An object of `entries` entries.
    Object {
        /// Number of entries.
        entries: usize,
    },
}

/// The visitor call of a self-describing read.
#[derive(Debug, Clone, Copy, PartialEq, Eq, Structural)]
pub enum AnyVisit {
    /// `visit_unit`.
    Unit,
    /// `visit_bool` with the value.
    Bool(bool),
    /// `visit_i64` with the value.
    I64(i64),
    /// `visit_u64` with the value.
    U64(u64),
    /// `visit_f64` with the number.
    F64,
    /// `visit_string` with the string converted under the read's policy.
    ConvertedString,
    /// `visit_seq` over the items.
    Sequence,
    /// `visit_map` over the entries.
    Mapping,
}

/// The visitor call of a self-describing read of a value of `shape`.
pub open spec fn any_visit_of(shape: JsonShape) -> AnyVisit {
    match shape {
        JsonShape::Null => AnyVisit::Unit,
        JsonShape::Bool(b) => AnyVisit::Bool(b),
        JsonShape::Int64(v) => AnyVisit::I64(v),
        JsonShape::UInt64(v) => AnyVisit::U64(v),
        JsonShape::Float => AnyVisit::F64,
        JsonShape::String => AnyVisit::ConvertedString,
        JsonShape::Array => AnyVisit::Sequence,
        JsonShape::Object { .. } => AnyVisit::Mapping,
    }
}

/// Decides the visitor call of a self-describing read: null as unit,
/// booleans and integers as themselves (signed when they fit), other
/// numbers as floats, strings after conversion, arrays as sequences and
/// objects as maps.
pub fn any_visit(shape: JsonShape) -> (r: AnyVisit)
    ensures
        r == any_visit_of(shape),
        shape is Null ==> r == AnyVisit::Unit,
        shape matches JsonShape::Bool(b) ==> r == AnyVisit::Bool(b),
        shape matches JsonShape::Int64(n) ==> r == AnyVisit::I64(n),
        shape matches JsonShape::UInt64(n) ==> r == AnyVisit::U64(n),
        shape is Float ==> r == AnyVisit::F64,
        shape is String ==> r == AnyVisit::ConvertedString,
        shape is Array ==> r == AnyVisit::Sequence,
        shape is Object ==> r == AnyVisit::Mapping,
{
    match shape {
        JsonShape::Null => AnyVisit::Unit,
        JsonShape::Bool(b) => AnyVisit::Bool(b),
        JsonShape::Int64(v) => AnyVisit::I64(v),
        JsonShape::UInt64(v) => AnyVisit::U64(v),
        JsonShape::Float => AnyVisit::F64,
        JsonShape::String => AnyVisit::ConvertedString,
        JsonShape::Array => AnyVisit::Sequence,
        JsonShape::Object { .. } => AnyVisit::Mapping,
    }
}

/// A self-describing read hands its visitor the value it holds, and an
/// unexpected value is reported as the value it is.
pub proof fn law_reads_hand_over_the_held_value(b: bool, i: i64, u: u64)
    ensures
        any_visit_of(JsonShape::Bool(b)) == AnyVisit::Bool(b),
        any_visit_of(JsonShape::Int64(i)) == AnyVisit::I64(i),
        any_visit_of(JsonShape::UInt64(u)) == AnyVisit::U64(u),
        unexpected_of(JsonShape::Bool(b)) == Unexpected::Bool(b),
        unexpected_of(JsonShape::Int64(i)) == Unexpected::Signed(i),
        unexpected_of(JsonShape::UInt64(u)) == Unexpected::Unsigned(u),
{
}

/// An enum is read from a string or from an object of exactly one entry,
/// and from nothing else.
pub proof fn law_enums_need_a_name_or_one_entry(shape: JsonShape)
    ensures
        enum_visit_of(shape) is Ok <==> (shape is String || shape == (JsonShape::Object {
            entries: 1,
        })),
{
}

/// How an enum is read from a value.
#[derive(Debug, Clone, Copy, PartialEq, Eq, Structural)]
pub enum EnumVisit {
    /// A unit variant named by the converted string.
    Named,
    /// The variant named by the single key of an object, with its value.
    Tagged,
}

/// What an unexpected value is reported as.
#[derive(Debug, Clone, Copy, PartialEq, Eq, Structural)]
pub enum Unexpected {
    /// The unit value.
    Unit,
    /// A boolean.
    Bool(bool),
    /// A signed integer.
    Signed(i64),
    /// An unsigned integer.
    Unsigned(u64),
    /// A floating-point number.
    Float,
    /// A string.
    Str,
    /// A sequence.
    Sequence,
    /// A map.
    Mapping,
}

/// Why an enum cannot be read from a value.
#[derive(Debug, Clone, Copy, PartialEq, Eq, Structural)]
pub enum EnumRefusal {
    /// An object without exactly one entry: an invalid map value.
    NotOneVariant,
    /// A value that is neither a string nor an object: an invalid type.
    InvalidType(Unexpected),
}

/// What a value of `shape` is reported as when it is unexpected.
pub open spec fn unexpected_of(shape: JsonShape) -> Unexpected {
    match shape {
        JsonShape::Null => Unexpected::Unit,
        JsonShape::Bool(b) => Unexpected::Bool(b),
        JsonShape::Int64(v) => Unexpected::Signed(v),
        JsonShape::UInt64(v) => Unexpected::Unsigned(v),
        JsonShape::Float => Unexpected::Float,
        JsonShape::String => Unexpected::Str,
        JsonShape::Array => Unexpected::Sequence,
        JsonShape::Object { .. } => Unexpected::Mapping,
    }
}

/// How an enum is read from a value of `shape`, or why it cannot be.
pub open spec fn enum_visit_of(shape: JsonShape) -> Result<EnumVisit, EnumRefusal> {
    match shape {
        JsonShape::String => Ok(EnumVisit::Named),
        JsonShape::Object { entries } => if entries == 1 {
            Ok(EnumVisit::Tagged)
        } else {
            Err(EnumRefusal::NotOneVariant)
        },
        _ => Err(EnumRefusal::InvalidType(unexpected_of(shape))),
    }
}

/// Reports what a value of `shape` is when it is unexpected.
pub fn unexpected(shape: JsonShape) -> (r: Unexpected)
    ensures
        r == unexpected_of(shape),
        shape is Null ==> r == Unexpected::Unit,
        shape matches JsonShape::Bool(b) ==> r == Unexpected::Bool(b),
        shape matches JsonShape::Int64(n) ==> r == Unexpected::Signed(n),
        shape matches JsonShape::UInt64(n) ==> r == Unexpected::Unsigned(n),
        shape is Float ==> r == Unexpected::Float,
        shape is String ==> r == Unexpected::Str,
        shape is Array ==> r == Unexpected::Sequence,
        shape is Object ==> r == Unexpected::Mapping,
{
    match shape {
        JsonShape::Null => Unexpected::Unit,
        JsonShape::Bool(b) => Unexpected::Bool(b),
        JsonShape::Int64(v) => Unexpected::Signed(v),
        JsonShape::UInt64(v) => Unexpected::Unsigned(v),
        JsonShape::Float => Unexpected::Float,
        JsonShape::String => Unexpected::Str,
        JsonShape::Array => Unexpected::Sequence,
        JsonShape::Object { .. } => Unexpected::Mapping,
    }
}

/// Decides how an enum is read: a string names a unit variant, an object
/// with exactly one entry is an externally tagged variant, any other object
/// is refused as an invalid map, and any other value as an invalid type.
pub fn enum_visit(shape: JsonShape) -> (r: Result<EnumVisit, EnumRefusal>)
    ensures
        r == enum_visit_of(shape),
        shape is String ==> r == Ok::<EnumVisit, EnumRefusal>(EnumVisit::Named),
        shape matches JsonShape::Object { entries } ==> (entries == 1 ==> r == Ok::<
            EnumVisit,
            EnumRefusal,
        >(EnumVisit::Tagged)) && (entries != 1 ==> r == Err::<EnumVisit, EnumRefusal>(
            EnumRefusal::NotOneVariant,
        )),
        !(shape is String) && !(shape is Object) ==> r == Err::<EnumVisit, EnumRefusal>(
            EnumRefusal::InvalidType(unexpected_of(shape)),
        ),
{
    match shape {
        JsonShape::String => Ok(EnumVisit::Named),
        JsonShape::Object { entries } => {
            if entries == 1 {
                Ok(EnumVisit::Tagged)
            } else {
                Err(EnumRefusal::NotOneVariant)
            }
        },
        _ => Err(EnumRefusal::InvalidType(unexpected(shape))),
    }
}

} // verus!
