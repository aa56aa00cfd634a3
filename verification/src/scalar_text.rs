//! String reads of JSON scalars: a string, a boolean or an integer is
//! converted to text under the read's conversion policy; null, arrays and
//! objects are of the wrong kind.

use vstd::prelude::*;

use qubit_datatype::ConversionLimits;
use qubit_datatype::ConversionPolicy;
use qubit_datatype::DataConversionError;
use qubit_datatype::DataConverter;

use crate::admission::text_source;
use crate::admission::text_source_of;
use crate::admission::JsonScalarKind;
use crate::admission::TextSource;
use crate::admission::UnexpectedKind;
use crate::error::conversion_is_missing;
use crate::error::ConfigError;
use crate::options::ReadPolicy;
use crate::structured::ConfigDeserializeError;
use crate::text::concat;

verus! {

/// A JSON value that a string read may start from; a number that fits
/// neither a signed nor an unsigned 64-bit integer is not among them.
#[derive(Debug)]
pub enum JsonScalar {
    /// `null`.
    Null,
    /// A boolean.
    Bool(bool),
    /// A number that fits a signed 64-bit integer.
    Int64(i64),
    /// A number that fits an unsigned 64-bit integer and not a signed one.
    UInt64(u64),
    /// A string.
    String(String),
    /// An array.
    Array,
    /// An object.
    Object,
}

/// The value a string conversion starts from.
pub enum ScalarSource<'a> {
    /// A string.
    Text(&'a str),
    /// A boolean.
    Bool(bool),
    /// A signed 64-bit integer.
    Int64(i64),
    /// An unsigned 64-bit integer.
    UInt64(u64),
}

/// What a string conversion starts from, as plain values.
pub enum ScalarSourceView {
    /// A string.
    Text(Seq<char>),
    /// A boolean.
    Bool(bool),
    /// A signed 64-bit integer.
    Int64(i64),
    /// An unsigned 64-bit integer.
    UInt64(u64),
}

impl<'a> View for ScalarSource<'a> {
    type V = ScalarSourceView;

    open spec fn view(&self) -> ScalarSourceView {
        match self {
            ScalarSource::Text(s) => ScalarSourceView::Text(s@),
            ScalarSource::Bool(b) => ScalarSourceView::Bool(*b),
            ScalarSource::Int64(v) => ScalarSourceView::Int64(*v),
            ScalarSource::UInt64(v) => ScalarSourceView::UInt64(*v),
        }
    }
}

/// The text a scalar converts to under a conversion policy, or the
/// conversion's failure.
pub uninterp spec fn string_conversion(source: ScalarSourceView, policy: ConversionPolicy) -> Result<
    Seq<char>,
    DataConversionError,
>;

/// Converts a scalar to text under `policy`.
///
/// Wraps the source in a `DataConverter` and calls `to_with::<String>` with
/// `policy` and the default conversion limits. The outcome (which depends on
/// the policy's string, boolean and numeric rules) is a function of the
/// source and the policy, named `string_conversion`.
#[verifier::external_body]
fn convert_to_string(source: ScalarSource<'_>, policy: &ConversionPolicy) -> (r: Result<
    String,
    DataConversionError,
>)
    ensures
        match string_conversion(source@, *policy) {
            Ok(text) => r matches Ok(s) && s@ == text,
            Err(error) => r == Err::<String, DataConversionError>(error),
        },
{
    let converter = match source {
        ScalarSource::Text(s) => DataConverter::from(s),
        ScalarSource::Bool(b) => DataConverter::from(b),
        ScalarSource::Int64(v) => DataConverter::from(v),
        ScalarSource::UInt64(v) => DataConverter::from(v),
    };
    converter.to_with::<String>(policy, ConversionLimits::default_ref())
}

/// The kind of a JSON scalar.
pub open spec fn kind_of(value: JsonScalar) -> JsonScalarKind {
    match value {
        JsonScalar::Null => JsonScalarKind::Null,
        JsonScalar::Bool(b) => JsonScalarKind::Bool(b),
        JsonScalar::Int64(v) => JsonScalarKind::Number { signed: Some(v), unsigned: None },
        JsonScalar::UInt64(v) => JsonScalarKind::Number { signed: None, unsigned: Some(v) },
        JsonScalar::String(_) => JsonScalarKind::String,
        JsonScalar::Array => JsonScalarKind::Array,
        JsonScalar::Object => JsonScalarKind::Object,
    }
}

/// The source of the conversion of `value`, for the kinds that have one.
pub open spec fn source_of(value: JsonScalar) -> ScalarSourceView {
    match value {
        JsonScalar::Bool(b) => ScalarSourceView::Bool(b),
        JsonScalar::Int64(v) => ScalarSourceView::Int64(v),
        JsonScalar::UInt64(v) => ScalarSourceView::UInt64(v),
        JsonScalar::String(s) => ScalarSourceView::Text(s@),
        _ => ScalarSourceView::Bool(false),
    }
}

/// `e` reports the conversion failure `error` at `key`: a missing value as
/// `PropertyHasNoValue`, anything else as a `ConversionError` without index.
pub open spec fn keyed_conversion_error(key: Seq<char>, error: DataConversionError, e: ConfigError) -> bool {
    &&& conversion_is_missing(error) ==> e.is_no_value(key)
    &&& !conversion_is_missing(error) ==> (e matches ConfigError::ConversionError {
        key: k,
        source_index,
        source,
    } && k@ == key && source_index is None && source == error)
}

/// A string read converts the value it holds: a boolean, an integer or a
/// string is the conversion's source as it is, and null, arrays and objects
/// have no source.
pub proof fn law_string_reads_convert_the_held_value(b: bool, i: i64, u: u64, text: String)
    ensures
        source_of(JsonScalar::Bool(b)) == ScalarSourceView::Bool(b),
        source_of(JsonScalar::Int64(i)) == ScalarSourceView::Int64(i),
        source_of(JsonScalar::UInt64(u)) == ScalarSourceView::UInt64(u),
        source_of(JsonScalar::String(text)) == ScalarSourceView::Text(text@),
        text_source_of(kind_of(JsonScalar::Bool(b))) is Ok,
        text_source_of(kind_of(JsonScalar::Int64(i))) is Ok,
        text_source_of(kind_of(JsonScalar::UInt64(u))) is Ok,
        text_source_of(kind_of(JsonScalar::String(text))) is Ok,
        text_source_of(kind_of(JsonScalar::Null)) is Err,
        text_source_of(kind_of(JsonScalar::Array)) is Err,
        text_source_of(kind_of(JsonScalar::Object)) is Err,
{
}

/// How a JSON value of the wrong kind is described.
pub open spec fn unexpected_text(kind: UnexpectedKind) -> Seq<char> {
    match kind {
        UnexpectedKind::Unit => "unit value"@,
        UnexpectedKind::Sequence => "sequence"@,
        UnexpectedKind::Mapping => "map"@,
    }
}

/// The diagnostic of a string read of a JSON value of the wrong kind.
pub open spec fn invalid_type_text(kind: UnexpectedKind) -> Seq<char> {
    "invalid type: "@ + unexpected_text(kind) + ", expected a string-compatible scalar"@
}

fn describe(kind: UnexpectedKind) -> (r: &'static str)
    ensures
        r@ == unexpected_text(kind),
{
    proof {
        reveal_strlit("unit value");
        reveal_strlit("sequence");
        reveal_strlit("map");
    }
    match kind {
        UnexpectedKind::Unit => "unit value",
        UnexpectedKind::Sequence => "sequence",
        UnexpectedKind::Mapping => "map",
    }
}

/// Reads a JSON scalar as a string at `key` under the conversion policy
/// of `policy`: a string, a boolean or an integer is converted (a failed
/// conversion is reported at `key`, a missing value as `PropertyHasNoValue`
/// and any other failure as a `ConversionError`); null, an array or an
/// object fails with an invalid-type diagnostic that names its kind.
pub fn scalar_to_string(key: &str, value: &JsonScalar, policy: &ReadPolicy) -> (r: Result<
    String,
    ConfigDeserializeError,
>)
    ensures
        match text_source_of(kind_of(*value)) {
            Err(kind) => r matches Err(ConfigDeserializeError::Message { message, path: None })
                && message@ == invalid_type_text(kind),
            Ok(_) => match string_conversion(source_of(*value), policy.spec_conversion()) {
                Ok(text) => r matches Ok(s) && s@ == text,
                Err(error) => r matches Err(ConfigDeserializeError::Config(e))
                    && keyed_conversion_error(key@, error, e),
            },
        },
        *value matches JsonScalar::Bool(b) ==> match string_conversion(ScalarSourceView::Bool(b), policy.spec_conversion()) {
            Ok(text) => r matches Ok(s) && s@ == text,
            Err(error) => r matches Err(ConfigDeserializeError::Config(e))
                && keyed_conversion_error(key@, error, e),
        },
        *value matches JsonScalar::Int64(n) ==> match string_conversion(ScalarSourceView::Int64(n), policy.spec_conversion()) {
            Ok(text) => r matches Ok(s) && s@ == text,
            Err(error) => r matches Err(ConfigDeserializeError::Config(e))
                && keyed_conversion_error(key@, error, e),
        },
        *value matches JsonScalar::UInt64(n) ==> match string_conversion(ScalarSourceView::UInt64(n), policy.spec_conversion()) {
            Ok(text) => r matches Ok(s) && s@ == text,
            Err(error) => r matches Err(ConfigDeserializeError::Config(e))
                && keyed_conversion_error(key@, error, e),
        },
        *value matches JsonScalar::String(text) ==> match string_conversion(ScalarSourceView::Text(text@), policy.spec_conversion()) {
            Ok(text) => r matches Ok(s) && s@ == text,
            Err(error) => r matches Err(ConfigDeserializeError::Config(e))
                && keyed_conversion_error(key@, error, e),
        },
        (*value is Null || *value is Array || *value is Object) ==> r matches Err(
            ConfigDeserializeError::Message { path: None, .. },
        ),
{
    let kind = match value {
        JsonScalar::Null => JsonScalarKind::Null,
        JsonScalar::Bool(b) => JsonScalarKind::Bool(*b),
        JsonScalar::Int64(v) => JsonScalarKind::Number { signed: Some(*v), unsigned: None },
        JsonScalar::UInt64(v) => JsonScalarKind::Number { signed: None, unsigned: Some(*v) },
        JsonScalar::String(_) => JsonScalarKind::String,
        JsonScalar::Array => JsonScalarKind::Array,
        JsonScalar::Object => JsonScalarKind::Object,
    };
    match text_source(kind) {
        Err(unexpected) => {
            let described = concat("invalid type: ", describe(unexpected));
            let message = concat(described.as_str(), ", expected a string-compatible scalar");
            proof {
                reveal_strlit("invalid type: ");
                reveal_strlit(", expected a string-compatible scalar");
            }
            Err(ConfigDeserializeError::custom(message))
        },
        Ok(_) => {
            let source = match value {
                JsonScalar::Bool(b) => ScalarSource::Bool(*b),
                JsonScalar::Int64(v) => ScalarSource::Int64(*v),
                JsonScalar::UInt64(v) => ScalarSource::UInt64(*v),
                JsonScalar::String(s) => ScalarSource::Text(s.as_str()),
                _ => ScalarSource::Bool(false),
            };
            match convert_to_string(source, policy.conversion_options()) {
                Ok(text) => Ok(text),
                Err(error) => Err(
                    ConfigDeserializeError::from_config(
                        ConfigError::from_data_conversion_error(key, error),
                    ),
                ),
            }
        },
    }
}

} // verus!
