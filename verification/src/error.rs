//! Configuration errors and their stable classification.

use vstd::prelude::*;

use qubit_datatype::DataConversionError;
use qubit_datatype::DataType;
use qubit_value::ValueError;

use crate::key::key_violation;
use crate::key::path_violation;
use crate::key::ConfigPathViolation;
use crate::text::concat;
use crate::text::decimal;
use crate::text::decimal_string;
use crate::text::owned;

verus! {

/// The data type tag of `qubit-datatype`: a public enum of field-less
/// variants, whose variants verified code can name.
#[verifier::external_type_specification]
pub struct ExDataType(DataType);

/// A value-free conversion failure of `qubit-datatype`, carried through
/// errors unchanged.
#[verifier::external_type_specification]
#[verifier::external_body]
pub struct ExDataConversionError(DataConversionError);

/// A value-layer failure of `qubit-value`.
#[verifier::external_type_specification]
#[verifier::external_body]
pub struct ExValueError(ValueError);

/// An I/O failure reported by a configuration source.
#[verifier::external_type_specification]
#[verifier::external_body]
pub struct ExIoError(std::io::Error);

/// Machine-readable category of a [`ConfigError`].
#[non_exhaustive]
#[derive(Debug, Clone, Copy, PartialEq, Eq, Structural, Hash)]
pub enum ConfigErrorKind {
    /// A property key is not canonical.
    InvalidKey,
    /// A section path is not canonical.
    InvalidPath,
    /// A requested property does not exist.
    PropertyNotFound,
    /// A property exists but has no usable value.
    PropertyHasNoValue,
    /// The stored type differs from the exact requested type.
    TypeMismatch,
    /// Converting the stored value failed.
    Conversion,
    /// A lower-level value operation failed.
    Value,
    /// Resolving a variable failed.
    Substitution,
    /// Variable expansion exceeded its configured depth.
    SubstitutionDepthExceeded,
    /// Variable expansion resolved too many placeholders.
    SubstitutionExpansionLimitExceeded,
    /// Variable expansion produced too many UTF-8 bytes.
    SubstitutionOutputTooLarge,
    /// Variable expansion encountered a reference cycle.
    SubstitutionCycle,
    /// Combining configurations failed.
    Merge,
    /// A final property rejected mutation.
    PropertyIsFinal,
    /// A dotted key conflicts with another key shape.
    KeyConflict,
    /// Reading configuration data failed at the I/O layer.
    Io,
    /// Parsing source configuration data failed.
    Parse,
    /// Mapping configuration data into a structured value failed.
    Deserialize,
    /// An uncategorized configuration operation failed.
    Other,
}

/// Configuration error type.
#[non_exhaustive]
#[derive(Debug)]
#[allow(inconsistent_fields)]
pub enum ConfigError {
    /// Configuration property key is not canonical.
    InvalidKey {
        /// Rejected property key.
        key: String,
        /// Structural key violation.
        violation: ConfigPathViolation,
    },
    /// Configuration section path is not canonical.
    InvalidPath {
        /// Rejected section path.
        path: String,
        /// Structural path violation.
        violation: ConfigPathViolation,
    },
    /// Property not found.
    PropertyNotFound(String),
    /// None of several candidate properties was found.
    PropertyCandidatesNotFound {
        /// Missing root-relative configuration paths in lookup order.
        paths: Vec<String>,
    },
    /// Property has no value.
    PropertyHasNoValue(String),
    /// Type mismatch at a specific key/path.
    TypeMismatch {
        /// Configuration key/path where the mismatch occurred.
        key: String,
        /// Expected type.
        expected: DataType,
        /// Actual type.
        actual: DataType,
    },
    /// Structured, value-redacted conversion failure.
    ConversionError {
        /// Configuration key/path where the conversion failed.
        key: String,
        /// Zero-based index in the source collection, when relevant.
        source_index: Option<usize>,
        /// Value-free conversion failure details.
        source: DataConversionError,
    },
    /// Value-layer error not covered by a specialized configuration mapping.
    ValueError {
        /// Configuration key/path where the value access failed.
        key: String,
        /// Underlying value-layer error.
        source: ValueError,
    },
    /// Variable substitution failed.
    SubstitutionError {
        /// Configuration path whose value was being expanded.
        path: String,
        /// Human-readable resolution failure.
        message: String,
    },
    /// Variable substitution depth exceeded.
    SubstitutionDepthExceeded {
        /// Configuration path whose value was being expanded.
        path: String,
        /// Maximum permitted recursive expansion depth.
        max_depth: usize,
    },
    /// Variable substitution resolved too many placeholders.
    SubstitutionExpansionLimitExceeded {
        /// Configuration path whose value was being expanded.
        path: String,
        /// Maximum permitted placeholder-resolution count.
        max_expansions: usize,
    },
    /// Variable substitution produced an oversized value.
    SubstitutionOutputTooLarge {
        /// Configuration path whose value was being expanded.
        path: String,
        /// Maximum permitted UTF-8 byte length.
        max_output_bytes: usize,
    },
    /// Variable substitution cycle detected.
    SubstitutionCycle {
        /// Configuration path whose value was being expanded.
        path: String,
        /// Variable chain that forms the cycle.
        chain: Vec<String>,
    },
    /// Configuration merge failed.
    MergeError(String),
    /// Property is final and cannot be overridden.
    PropertyIsFinal(String),
    /// Configuration key path cannot be represented without ambiguity.
    KeyConflict {
        /// Conflicting configuration key/path.
        path: String,
        /// Existing value or path shape.
        existing: String,
        /// Incoming value or path shape.
        incoming: String,
    },
    /// I/O error.
    IoError(std::io::Error),
    /// Parse error.
    ParseError(String),
    /// Deserialization error for structured config mapping.
    DeserializeError {
        /// Config prefix/path being deserialized.
        path: String,
        /// Error message.
        message: String,
        /// Underlying structured error when it came from config parsing.
        source: Option<Box<ConfigError>>,
    },
    /// Structured reads met properties that the target type did not consume.
    UnknownProperties {
        /// Root-relative paths of the unconsumed properties, sorted and
        /// without duplicates.
        paths: Vec<String>,
    },
    /// Other error.
    Other(String),
}

/// The shape of a value-layer error, with its fields moved out.
pub enum ValueErrorShape {
    /// The value is missing.
    Missing,
    /// The stored type differs from the requested one.
    TypeMismatch {
        /// Requested type.
        expected: DataType,
        /// Stored type.
        actual: DataType,
    },
    /// A single-value conversion failed.
    Conversion(DataConversionError),
    /// One element of a list conversion failed.
    ListConversion {
        /// Zero-based index of the failed element in the source collection.
        source_index: usize,
        /// Conversion failure of that element.
        source: DataConversionError,
    },
    /// Any other value-layer error.
    Other(ValueError),
}

/// The shape of a value-layer error: which variant it is, with its fields.
pub uninterp spec fn shape_of_value_error(error: ValueError) -> ValueErrorShape;

/// Tells the variants of a `qubit_value::ValueError` apart, moving their
/// fields into a [`ValueErrorShape`].
///
/// The body is one match over the variants of `ValueError`, with
/// `DataListConversionError::into_parts` splitting the list variant into its
/// index and cause; the result is a function of the error alone, named
/// `shape_of_value_error`. Which variant a given error is cannot be seen
/// through the opaque type, so nothing more is claimed.
#[verifier::external_body]
pub(crate) fn value_error_shape(error: ValueError) -> (r: ValueErrorShape)
    ensures
        r == shape_of_value_error(error),
{
    match error {
        ValueError::Missing(_) => ValueErrorShape::Missing,
        ValueError::TypeMismatch { expected, actual } => ValueErrorShape::TypeMismatch {
            expected,
            actual,
        },
        ValueError::Conversion(source) => ValueErrorShape::Conversion(source),
        ValueError::ListConversion(error) => {
            let (source_index, source) = error.into_parts();
            ValueErrorShape::ListConversion { source_index, source }
        },
        other => ValueErrorShape::Other(other),
    }
}

/// Whether a conversion error reports a missing source value.
pub uninterp spec fn conversion_is_missing(error: DataConversionError) -> bool;

/// Whether a conversion error reports a missing source value.
///
/// Calls `DataConversionError::is_missing`, which tests whether the error's
/// private cause is the missing-value one; the answer is a function of the
/// error alone, named `conversion_is_missing`.
#[verifier::external_body]
pub(crate) fn conversion_error_is_missing(error: &DataConversionError) -> (r: bool)
    ensures
        r == conversion_is_missing(*error),
{
    error.is_missing()
}

/// A one-element slice borrowing `value`.
///
/// Calls `std::slice::from_ref`, documented to convert a reference to `T`
/// into a slice of length 1 (without copying).
#[verifier::external_body]
pub(crate) fn slice_of_one(value: &String) -> (r: &[String])
    ensures
        r@ == seq![*value],
{
    std::slice::from_ref(value)
}

/// `r` is the keyed configuration error for a value-layer error of the
/// given shape at `key`.
pub open spec fn keyed_error_for_shape(key: Seq<char>, shape: ValueErrorShape, r: ConfigError) -> bool {
    match shape {
        ValueErrorShape::Missing => r.is_no_value(key),
        ValueErrorShape::TypeMismatch { expected, actual } => r matches ConfigError::TypeMismatch {
            key: k,
            expected: e,
            actual: a,
        } && k@ == key && e == expected && a == actual,
        ValueErrorShape::Conversion(source) => if conversion_is_missing(source) {
            r.is_no_value(key)
        } else {
            r matches ConfigError::ConversionError { key: k, source_index, source: s } && k@ == key
                && source_index is None && s == source
        },
        ValueErrorShape::ListConversion { source_index: i, source } => r matches ConfigError::ConversionError {
            key: k,
            source_index,
            source: s,
        } && k@ == key && source_index == Some(i) && s == source,
        ValueErrorShape::Other(source) => r matches ConfigError::ValueError { key: k, source: s }
            && k@ == key && s == source,
    }
}

/// `items` joined with `sep` between neighbours.
pub open spec fn joined_texts(items: Seq<Seq<char>>, sep: Seq<char>) -> Seq<char>
    decreases items.len(),
{
    if items.len() == 0 {
        Seq::empty()
    } else if items.len() == 1 {
        items[0]
    } else {
        joined_texts(items.drop_last(), sep) + sep + items.last()
    }
}

/// Joins the texts of `items` with `sep` between neighbours.
pub fn join_texts(items: &Vec<String>, sep: &str) -> (r: String)
    ensures
        r@ == joined_texts(items@.map_values(|s: String| s@), sep@),
{
    let ghost all = items@.map_values(|s: String| s@);
    let mut r = String::new();
    let mut i: usize = 0;
    while i < items.len()
        invariant
            all == items@.map_values(|s: String| s@),
            i <= items@.len(),
            r@ == joined_texts(all.take(i as int), sep@),
        decreases items@.len() - i,
    {
        let ghost before = all.take(i as int);
        proof {
            assert(all.take(i + 1).drop_last() =~= before);
            assert(all.take(i + 1).last() == items@[i as int]@);
        }
        if i == 0 {
            r = concat(r.as_str(), items[i].as_str());
            proof {
                assert(r@ =~= items@[0]@);
            }
        } else {
            let with_sep = concat(r.as_str(), sep);
            r = concat(with_sep.as_str(), items[i].as_str());
        }
        i = i + 1;
    }
    proof {
        assert(all.take(items@.len() as int) =~= all);
    }
    r
}

/// The display text of a data type: its lowercase name.
pub open spec fn data_type_text(data_type: DataType) -> Seq<char> {
    match data_type {
        DataType::Bool => "bool"@,
        DataType::Char => "char"@,
        DataType::Int8 => "int8"@,
        DataType::Int16 => "int16"@,
        DataType::Int32 => "int32"@,
        DataType::Int64 => "int64"@,
        DataType::Int128 => "int128"@,
        DataType::UInt8 => "uint8"@,
        DataType::UInt16 => "uint16"@,
        DataType::UInt32 => "uint32"@,
        DataType::UInt64 => "uint64"@,
        DataType::UInt128 => "uint128"@,
        DataType::Float32 => "float32"@,
        DataType::Float64 => "float64"@,
        DataType::String => "string"@,
        DataType::Date => "date"@,
        DataType::Time => "time"@,
        DataType::DateTime => "datetime"@,
        DataType::Instant => "instant"@,
        DataType::BigInteger => "biginteger"@,
        DataType::BigDecimal => "bigdecimal"@,
        DataType::Duration => "duration"@,
        DataType::Url => "url"@,
        DataType::StringMap => "stringmap"@,
        DataType::Json => "json"@,
    }
}

/// The display text of a data conversion error.
pub uninterp spec fn conversion_error_text(error: DataConversionError) -> Seq<char>;

/// The display text of a value-layer error.
pub uninterp spec fn value_error_text(error: ValueError) -> Seq<char>;

/// The lowercase name of a data type, as its display text writes it.
fn data_type_name(data_type: &DataType) -> (r: &'static str)
    ensures
        r@ == data_type_text(*data_type),
{
    proof {
        reveal_strlit("bool");
        reveal_strlit("char");
        reveal_strlit("int8");
        reveal_strlit("int16");
        reveal_strlit("int32");
        reveal_strlit("int64");
        reveal_strlit("int128");
        reveal_strlit("uint8");
        reveal_strlit("uint16");
        reveal_strlit("uint32");
        reveal_strlit("uint64");
        reveal_strlit("uint128");
        reveal_strlit("float32");
        reveal_strlit("float64");
        reveal_strlit("string");
        reveal_strlit("date");
        reveal_strlit("time");
        reveal_strlit("datetime");
        reveal_strlit("instant");
        reveal_strlit("biginteger");
        reveal_strlit("bigdecimal");
        reveal_strlit("duration");
        reveal_strlit("url");
        reveal_strlit("stringmap");
        reveal_strlit("json");
    }
    match data_type {
        DataType::Bool => "bool",
        DataType::Char => "char",
        DataType::Int8 => "int8",
        DataType::Int16 => "int16",
        DataType::Int32 => "int32",
        DataType::Int64 => "int64",
        DataType::Int128 => "int128",
        DataType::UInt8 => "uint8",
        DataType::UInt16 => "uint16",
        DataType::UInt32 => "uint32",
        DataType::UInt64 => "uint64",
        DataType::UInt128 => "uint128",
        DataType::Float32 => "float32",
        DataType::Float64 => "float64",
        DataType::String => "string",
        DataType::Date => "date",
        DataType::Time => "time",
        DataType::DateTime => "datetime",
        DataType::Instant => "instant",
        DataType::BigInteger => "biginteger",
        DataType::BigDecimal => "bigdecimal",
        DataType::Duration => "duration",
        DataType::Url => "url",
        DataType::StringMap => "stringmap",
        DataType::Json => "json",
    }
}

/// Formats a conversion error with its `Display`, derived by `thiserror`
/// from the error's fields; the text is a function of the error alone,
/// named `conversion_error_text`.
#[verifier::external_body]
fn display_conversion_error(error: &DataConversionError) -> (r: String)
    ensures
        r@ == conversion_error_text(*error),
{
    format!("{error}")
}

/// Formats a value-layer error with its `Display`, derived by `thiserror`
/// from the error's fields; the text is a function of the error alone,
/// named `value_error_text`.
#[verifier::external_body]
fn display_value_error(error: &ValueError) -> (r: String)
    ensures
        r@ == value_error_text(*error),
{
    format!("{error}")
}

/// Formats an I/O error with its `Display`. For operating-system errors the
/// text comes from the platform's error descriptions, which may depend on
/// the locale, so nothing is claimed of it.
#[verifier::external_body]
fn display_io_error(error: &std::io::Error) -> String {
    format!("{error}")
}

impl ConfigError {
    /// This error rejects the property key `key` for the reason that
    /// `key_violation` gives.
    pub open spec fn is_invalid_key(self, key: Seq<char>) -> bool {
        &&& self matches ConfigError::InvalidKey { key: k, violation }
        &&& k@ == key
        &&& key_violation(key) == Some(violation)
    }

    /// This error rejects the section path `path` for the reason that
    /// `path_violation` gives.
    pub open spec fn is_invalid_path(self, path: Seq<char>) -> bool {
        &&& self matches ConfigError::InvalidPath { path: p, violation }
        &&& p@ == path
        &&& path_violation(path) == Some(violation)
    }

    /// This error reports the property `name` as missing.
    pub open spec fn is_not_found(&self, name: Seq<char>) -> bool {
        self matches ConfigError::PropertyNotFound(p) && p@ == name
    }

    /// This error reports the property `name` as final.
    pub open spec fn is_final_error(&self, name: Seq<char>) -> bool {
        self matches ConfigError::PropertyIsFinal(p) && p@ == name
    }

    /// This error reports a property with no usable value at `name`.
    pub open spec fn is_no_value(&self, name: Seq<char>) -> bool {
        self matches ConfigError::PropertyHasNoValue(p) && p@ == name
    }

    /// The category of each variant.
    pub open spec fn spec_kind(&self) -> ConfigErrorKind {
        match self {
            ConfigError::InvalidKey { .. } => ConfigErrorKind::InvalidKey,
            ConfigError::InvalidPath { .. } => ConfigErrorKind::InvalidPath,
            ConfigError::PropertyNotFound(_) => ConfigErrorKind::PropertyNotFound,
            ConfigError::PropertyCandidatesNotFound { .. } => ConfigErrorKind::PropertyNotFound,
            ConfigError::PropertyHasNoValue(_) => ConfigErrorKind::PropertyHasNoValue,
            ConfigError::TypeMismatch { .. } => ConfigErrorKind::TypeMismatch,
            ConfigError::ConversionError { .. } => ConfigErrorKind::Conversion,
            ConfigError::ValueError { .. } => ConfigErrorKind::Value,
            ConfigError::SubstitutionError { .. } => ConfigErrorKind::Substitution,
            ConfigError::SubstitutionDepthExceeded {
                ..
            } => ConfigErrorKind::SubstitutionDepthExceeded,
            ConfigError::SubstitutionExpansionLimitExceeded {
                ..
            } => ConfigErrorKind::SubstitutionExpansionLimitExceeded,
            ConfigError::SubstitutionOutputTooLarge {
                ..
            } => ConfigErrorKind::SubstitutionOutputTooLarge,
            ConfigError::SubstitutionCycle { .. } => ConfigErrorKind::SubstitutionCycle,
            ConfigError::MergeError(_) => ConfigErrorKind::Merge,
            ConfigError::PropertyIsFinal(_) => ConfigErrorKind::PropertyIsFinal,
            ConfigError::KeyConflict { .. } => ConfigErrorKind::KeyConflict,
            ConfigError::IoError(_) => ConfigErrorKind::Io,
            ConfigError::ParseError(_) => ConfigErrorKind::Parse,
            ConfigError::DeserializeError { .. } => ConfigErrorKind::Deserialize,
            ConfigError::UnknownProperties { .. } => ConfigErrorKind::Deserialize,
            ConfigError::Other(_) => ConfigErrorKind::Other,
        }
    }

    /// The configuration path that each variant carries, if any.
    pub open spec fn spec_path(&self) -> Option<Seq<char>> {
        match self {
            ConfigError::InvalidKey { key, .. } => Some(key@),
            ConfigError::InvalidPath { path, .. } => Some(path@),
            ConfigError::PropertyNotFound(path) => Some(path@),
            ConfigError::PropertyHasNoValue(path) => Some(path@),
            ConfigError::PropertyIsFinal(path) => Some(path@),
            ConfigError::PropertyCandidatesNotFound { paths } => if paths@.len() == 1 {
                Some(paths@[0]@)
            } else {
                None
            },
            ConfigError::TypeMismatch { key, .. } => Some(key@),
            ConfigError::ConversionError { key, .. } => Some(key@),
            ConfigError::ValueError { key, .. } => Some(key@),
            ConfigError::KeyConflict { path, .. } => Some(path@),
            ConfigError::DeserializeError { path, .. } => Some(path@),
            ConfigError::SubstitutionError { path, .. } => Some(path@),
            ConfigError::SubstitutionDepthExceeded { path, .. } => Some(path@),
            ConfigError::SubstitutionExpansionLimitExceeded { path, .. } => Some(path@),
            ConfigError::SubstitutionOutputTooLarge { path, .. } => Some(path@),
            ConfigError::SubstitutionCycle { path, .. } => Some(path@),
            _ => None,
        }
    }

    /// Returns the stable machine-readable category of this error.
    pub fn kind(&self) -> (k: ConfigErrorKind)
        ensures
            k == self.spec_kind(),
    {
        match self {
            ConfigError::InvalidKey { .. } => ConfigErrorKind::InvalidKey,
            ConfigError::InvalidPath { .. } => ConfigErrorKind::InvalidPath,
            ConfigError::PropertyNotFound(_) => ConfigErrorKind::PropertyNotFound,
            ConfigError::PropertyCandidatesNotFound { .. } => ConfigErrorKind::PropertyNotFound,
            ConfigError::PropertyHasNoValue(_) => ConfigErrorKind::PropertyHasNoValue,
            ConfigError::TypeMismatch { .. } => ConfigErrorKind::TypeMismatch,
            ConfigError::ConversionError { .. } => ConfigErrorKind::Conversion,
            ConfigError::ValueError { .. } => ConfigErrorKind::Value,
            ConfigError::SubstitutionError { .. } => ConfigErrorKind::Substitution,
            ConfigError::SubstitutionDepthExceeded {
                ..
            } => ConfigErrorKind::SubstitutionDepthExceeded,
            ConfigError::SubstitutionExpansionLimitExceeded {
                ..
            } => ConfigErrorKind::SubstitutionExpansionLimitExceeded,
            ConfigError::SubstitutionOutputTooLarge {
                ..
            } => ConfigErrorKind::SubstitutionOutputTooLarge,
            ConfigError::SubstitutionCycle { .. } => ConfigErrorKind::SubstitutionCycle,
            ConfigError::MergeError(_) => ConfigErrorKind::Merge,
            ConfigError::PropertyIsFinal(_) => ConfigErrorKind::PropertyIsFinal,
            ConfigError::KeyConflict { .. } => ConfigErrorKind::KeyConflict,
            ConfigError::IoError(_) => ConfigErrorKind::Io,
            ConfigError::ParseError(_) => ConfigErrorKind::Parse,
            ConfigError::DeserializeError { .. } => ConfigErrorKind::Deserialize,
            ConfigError::UnknownProperties { .. } => ConfigErrorKind::Deserialize,
            ConfigError::Other(_) => ConfigErrorKind::Other,
        }
    }

    /// Returns the configuration path carried by this error: the key or path
    /// of keyed variants, the single candidate of a one-candidate lookup
    /// failure, and `None` otherwise.
    pub fn path(&self) -> (r: Option<&str>)
        ensures
            r matches Some(p) ==> self.spec_path() == Some(p@),
            r is None ==> self.spec_path() is None,
    {
        match self {
            ConfigError::InvalidKey { key, .. } => Some(key.as_str()),
            ConfigError::InvalidPath { path, .. } => Some(path.as_str()),
            ConfigError::PropertyNotFound(path) => Some(path.as_str()),
            ConfigError::PropertyHasNoValue(path) => Some(path.as_str()),
            ConfigError::PropertyIsFinal(path) => Some(path.as_str()),
            ConfigError::PropertyCandidatesNotFound { paths } => {
                if paths.len() == 1 {
                    Some(paths[0].as_str())
                } else {
                    None
                }
            },
            ConfigError::TypeMismatch { key, .. } => Some(key.as_str()),
            ConfigError::ConversionError { key, .. } => Some(key.as_str()),
            ConfigError::ValueError { key, .. } => Some(key.as_str()),
            ConfigError::KeyConflict { path, .. } => Some(path.as_str()),
            ConfigError::DeserializeError { path, .. } => Some(path.as_str()),
            ConfigError::SubstitutionError { path, .. } => Some(path.as_str()),
            ConfigError::SubstitutionDepthExceeded { path, .. } => Some(path.as_str()),
            ConfigError::SubstitutionExpansionLimitExceeded { path, .. } => Some(path.as_str()),
            ConfigError::SubstitutionOutputTooLarge { path, .. } => Some(path.as_str()),
            ConfigError::SubstitutionCycle { path, .. } => Some(path.as_str()),
            _ => None,
        }
    }

    /// Returns the missing candidate paths of a property lookup error: the
    /// one path of `PropertyNotFound`, every candidate of
    /// `PropertyCandidatesNotFound` in lookup order, and `None` otherwise.
    pub fn candidate_paths(&self) -> (r: Option<&[String]>)
        ensures
            self matches ConfigError::PropertyNotFound(p) ==> (r matches Some(s) && s@ == seq![
                *p,
            ]),
            self matches ConfigError::PropertyCandidatesNotFound { paths } ==> (r matches Some(s)
                && s@ == paths@),
            !(self is PropertyNotFound || self is PropertyCandidatesNotFound) ==> r is None,
    {
        match self {
            ConfigError::PropertyNotFound(path) => Some(slice_of_one(path)),
            ConfigError::PropertyCandidatesNotFound { paths } => Some(paths.as_slice()),
            _ => None,
        }
    }

    /// Returns the failing collection element index of a conversion error.
    pub fn source_index(&self) -> (r: Option<usize>)
        ensures
            self matches ConfigError::ConversionError { source_index, .. } ==> r == source_index,
            !(self is ConversionError) ==> r is None,
    {
        match self {
            ConfigError::ConversionError { source_index, .. } => *source_index,
            _ => None,
        }
    }

    /// Maps a conversion error, already classified as missing or not, to a
    /// keyed configuration error.
    pub fn from_classified_conversion_error(
        key: &str,
        missing: bool,
        error: DataConversionError,
    ) -> (r: ConfigError)
        ensures
            missing ==> r.is_no_value(key@),
            !missing ==> (r matches ConfigError::ConversionError { key: k, source_index, source }
                && k@ == key@ && source_index is None && source == error),
    {
        if missing {
            ConfigError::PropertyHasNoValue(owned(key))
        } else {
            ConfigError::ConversionError { key: owned(key), source_index: None, source: error }
        }
    }

    /// Maps a common data conversion error to a keyed configuration error:
    /// a missing source value becomes `PropertyHasNoValue`, any other failure
    /// a `ConversionError` without source index.
    pub fn from_data_conversion_error(key: &str, error: DataConversionError) -> (r: ConfigError)
        ensures
            conversion_is_missing(error) ==> r.is_no_value(key@),
            !conversion_is_missing(error) ==> (r matches ConfigError::ConversionError {
                key: k,
                source_index,
                source,
            } && k@ == key@ && source_index is None && source == error),
    {
        let missing = conversion_error_is_missing(&error);
        Self::from_classified_conversion_error(key, missing, error)
    }

    /// Maps a value-layer error, already split into its shape, to a keyed
    /// configuration error.
    pub fn from_value_error_shape(key: &str, shape: ValueErrorShape) -> (r: ConfigError)
        ensures
            keyed_error_for_shape(key@, shape, r),
    {
        match shape {
            ValueErrorShape::Missing => ConfigError::PropertyHasNoValue(owned(key)),
            ValueErrorShape::TypeMismatch { expected, actual } => ConfigError::TypeMismatch {
                key: owned(key),
                expected,
                actual,
            },
            ValueErrorShape::Conversion(source) => Self::from_data_conversion_error(key, source),
            ValueErrorShape::ListConversion { source_index, source } => {
                ConfigError::ConversionError {
                    key: owned(key),
                    source_index: Some(source_index),
                    source,
                }
            },
            ValueErrorShape::Other(source) => ConfigError::ValueError { key: owned(key), source },
        }
    }

    /// Maps a value-layer error to a keyed configuration error: a missing
    /// value becomes `PropertyHasNoValue`, a type mismatch `TypeMismatch`, a
    /// conversion failure a `ConversionError` (with the element index for list
    /// conversions), and anything else `ValueError`.
    pub fn from_value_error(key: &str, error: ValueError) -> (r: ConfigError)
        ensures
            keyed_error_for_shape(key@, shape_of_value_error(error), r),
            r.spec_path() == Some(key@),
            r.spec_kind() == ConfigErrorKind::PropertyHasNoValue || r.spec_kind()
                == ConfigErrorKind::TypeMismatch || r.spec_kind() == ConfigErrorKind::Conversion
                || r.spec_kind() == ConfigErrorKind::Value,
    {
        let shape = value_error_shape(error);
        Self::from_value_error_shape(key, shape)
    }

    /// The display text of this error, apart from the description of an
    /// I/O failure.
    pub open spec fn spec_message(&self) -> Seq<char> {
        match self {
            ConfigError::InvalidKey { key, violation } => "Invalid configuration key '"@ + key@
                + "': "@ + violation.spec_message(),
            ConfigError::InvalidPath { path, violation } => "Invalid configuration path '"@ + path@
                + "': "@ + violation.spec_message(),
            ConfigError::PropertyNotFound(name) => "Property not found: "@ + name@,
            ConfigError::PropertyCandidatesNotFound { paths } =>
                "None of the candidate properties was found: "@ + joined_texts(
                paths@.map_values(|s: String| s@),
                ", "@,
            ),
            ConfigError::PropertyHasNoValue(name) => "Property '"@ + name@ + "' has no value"@,
            ConfigError::TypeMismatch { key, expected, actual } => "Type mismatch at '"@ + key@
                + "': expected "@ + data_type_text(*expected) + ", actual "@ + data_type_text(*actual),
            ConfigError::ConversionError { key, source, .. } => "Type conversion failed at '"@
                + key@ + "': "@ + conversion_error_text(*source),
            ConfigError::ValueError { key, source } => "Value error at '"@ + key@ + "': "@
                + value_error_text(*source),
            ConfigError::SubstitutionError { path, message } =>
                "Variable substitution failed at '"@ + path@ + "': "@ + message@,
            ConfigError::SubstitutionDepthExceeded { path, max_depth } =>
                "Variable substitution at '"@ + path@ + "' exceeded maximum depth: "@ + decimal(
                *max_depth as nat,
            ),
            ConfigError::SubstitutionExpansionLimitExceeded { path, max_expansions } =>
                "Variable substitution at '"@ + path@ + "' exceeded maximum expansions: "@ + decimal(
                *max_expansions as nat,
            ),
            ConfigError::SubstitutionOutputTooLarge { path, max_output_bytes } =>
                "Variable substitution at '"@ + path@ + "' exceeded maximum output bytes: "@
                + decimal(*max_output_bytes as nat),
            ConfigError::SubstitutionCycle { path, chain } => "Variable substitution cycle at '"@
                + path@ + "': "@ + joined_texts(chain@.map_values(|s: String| s@), " -> "@),
            ConfigError::MergeError(message) => "Configuration merge failed: "@ + message@,
            ConfigError::PropertyIsFinal(name) => "Property '"@ + name@
                + "' is final and cannot be overridden"@,
            ConfigError::KeyConflict { path, existing, incoming } =>
                "Configuration key conflict at '"@ + path@ + "': existing "@ + existing@
                + ", incoming "@ + incoming@,
            ConfigError::IoError(_) => "IO error: "@,
            ConfigError::ParseError(message) => "Parse error: "@ + message@,
            ConfigError::DeserializeError { path, message, .. } => "Deserialization error at '"@
                + path@ + "': "@ + message@,
            ConfigError::UnknownProperties { paths } => "Unknown configuration properties: "@
                + joined_texts(paths@.map_values(|s: String| s@), ", "@),
            ConfigError::Other(message) => "Configuration error: "@ + message@,
        }
    }

    /// Returns the display text of this error. The text of an I/O failure is
    /// `IO error: ` followed by the platform's description of it.
    pub fn message(&self) -> (r: String)
        ensures
            !(self is IoError) ==> r@ == self.spec_message(),
            self is IoError ==> self.spec_message().is_prefix_of(r@),
    {
        match self {
            ConfigError::InvalidKey { key, violation } => {
                let a = concat("Invalid configuration key '", key.as_str());
                let b = concat(a.as_str(), "': ");
                concat(b.as_str(), violation.message())
            },
            ConfigError::InvalidPath { path, violation } => {
                let a = concat("Invalid configuration path '", path.as_str());
                let b = concat(a.as_str(), "': ");
                concat(b.as_str(), violation.message())
            },
            ConfigError::PropertyNotFound(name) => concat("Property not found: ", name.as_str()),
            ConfigError::PropertyCandidatesNotFound { paths } => {
                let joined = join_texts(paths, ", ");
                concat("None of the candidate properties was found: ", joined.as_str())
            },
            ConfigError::PropertyHasNoValue(name) => {
                let a = concat("Property '", name.as_str());
                concat(a.as_str(), "' has no value")
            },
            ConfigError::TypeMismatch { key, expected, actual } => {
                let a = concat("Type mismatch at '", key.as_str());
                let b = concat(a.as_str(), "': expected ");
                let c = concat(b.as_str(), data_type_name(expected));
                let d = concat(c.as_str(), ", actual ");
                concat(d.as_str(), data_type_name(actual))
            },
            ConfigError::ConversionError { key, source, .. } => {
                let a = concat("Type conversion failed at '", key.as_str());
                let b = concat(a.as_str(), "': ");
                concat(b.as_str(), display_conversion_error(source).as_str())
            },
            ConfigError::ValueError { key, source } => {
                let a = concat("Value error at '", key.as_str());
                let b = concat(a.as_str(), "': ");
                concat(b.as_str(), display_value_error(source).as_str())
            },
            ConfigError::SubstitutionError { path, message } => {
                let a = concat("Variable substitution failed at '", path.as_str());
                let b = concat(a.as_str(), "': ");
                concat(b.as_str(), message.as_str())
            },
            ConfigError::SubstitutionDepthExceeded { path, max_depth } => {
                let a = concat("Variable substitution at '", path.as_str());
                let b = concat(a.as_str(), "' exceeded maximum depth: ");
                concat(b.as_str(), decimal_string(*max_depth as u64).as_str())
            },
            ConfigError::SubstitutionExpansionLimitExceeded { path, max_expansions } => {
                let a = concat("Variable substitution at '", path.as_str());
                let b = concat(a.as_str(), "' exceeded maximum expansions: ");
                concat(b.as_str(), decimal_string(*max_expansions as u64).as_str())
            },
            ConfigError::SubstitutionOutputTooLarge { path, max_output_bytes } => {
                let a = concat("Variable substitution at '", path.as_str());
                let b = concat(a.as_str(), "' exceeded maximum output bytes: ");
                concat(b.as_str(), decimal_string(*max_output_bytes as u64).as_str())
            },
            ConfigError::SubstitutionCycle { path, chain } => {
                let a = concat("Variable substitution cycle at '", path.as_str());
                let b = concat(a.as_str(), "': ");
                concat(b.as_str(), join_texts(chain, " -> ").as_str())
            },
            ConfigError::MergeError(message) => concat("Configuration merge failed: ", message.as_str()),
            ConfigError::PropertyIsFinal(name) => {
                let a = concat("Property '", name.as_str());
                concat(a.as_str(), "' is final and cannot be overridden")
            },
            ConfigError::KeyConflict { path, existing, incoming } => {
                let a = concat("Configuration key conflict at '", path.as_str());
                let b = concat(a.as_str(), "': existing ");
                let c = concat(b.as_str(), existing.as_str());
                let d = concat(c.as_str(), ", incoming ");
                concat(d.as_str(), incoming.as_str())
            },
            ConfigError::IoError(error) => {
                let r = concat("IO error: ", display_io_error(error).as_str());
                proof {
                    assert(r@.subrange(0, "IO error: "@.len() as int) =~= "IO error: "@);
                }
                r
            },
            ConfigError::ParseError(message) => concat("Parse error: ", message.as_str()),
            ConfigError::DeserializeError { path, message, .. } => {
                let a = concat("Deserialization error at '", path.as_str());
                let b = concat(a.as_str(), "': ");
                concat(b.as_str(), message.as_str())
            },
            ConfigError::UnknownProperties { paths } => {
                let joined = join_texts(paths, ", ");
                concat("Unknown configuration properties: ", joined.as_str())
            },
            ConfigError::Other(message) => concat("Configuration error: ", message.as_str()),
        }
    }

    /// Keys the outcome of a value-layer read of the property `key`: a value
    /// is passed through, an error is mapped by `from_value_error`.
    pub fn keyed_read<T>(key: &str, read: Result<T, ValueError>) -> (r: Result<T, ConfigError>)
        ensures
            read matches Ok(v) ==> r == Ok::<T, ConfigError>(v),
            read matches Err(error) ==> (r matches Err(e) && keyed_error_for_shape(
                key@,
                shape_of_value_error(error),
                e,
            ) && e.spec_path() == Some(key@)),
    {
        match read {
            Ok(v) => Ok(v),
            Err(error) => Err(Self::from_value_error(key, error)),
        }
    }
}

} // verus!
