//! Canonical configuration property keys and section paths.
//!
//! A key or path is a dotted name such as `server.http.port`. It is canonical
//! when it neither starts nor ends with `.` and contains no empty segment
//! between two separators. The empty text is a valid path (the root scope)
//! but not a valid key.

use vstd::prelude::*;

use crate::error::ConfigError;
use crate::text::chars_of;
use crate::text::owned;

verus! {

/// Describes why a configuration key or path is not canonical.
#[non_exhaustive]
#[derive(Debug, Clone, Copy, PartialEq, Eq, Structural, Hash)]
pub enum ConfigPathViolation {
    /// A property key is empty.
    Empty,
    /// The value starts with a `.` separator.
    LeadingSeparator,
    /// The value ends with a `.` separator.
    TrailingSeparator,
    /// The value contains an empty segment between two `.` separators.
    EmptySegment,
}

impl ConfigPathViolation {
    /// The stable, value-free description of this violation.
    pub open spec fn spec_message(self) -> Seq<char> {
        match self {
            ConfigPathViolation::Empty => "the key is empty"@,
            ConfigPathViolation::LeadingSeparator => "the path starts with a separator"@,
            ConfigPathViolation::TrailingSeparator => "the path ends with a separator"@,
            ConfigPathViolation::EmptySegment => "the path contains an empty segment"@,
        }
    }

    /// Returns the stable, value-free description of this violation.
    pub fn message(&self) -> (s: &'static str)
        ensures
            s@ == self.spec_message(),
    {
        match self {
            ConfigPathViolation::Empty => "the key is empty",
            ConfigPathViolation::LeadingSeparator => "the path starts with a separator",
            ConfigPathViolation::TrailingSeparator => "the path ends with a separator",
            ConfigPathViolation::EmptySegment => "the path contains an empty segment",
        }
    }
}

/// Whether two `.` separators stand next to each other in `s`.
pub open spec fn has_adjacent_dots(s: Seq<char>) -> bool {
    exists|i: int| 0 <= i < s.len() - 1 && #[trigger] s[i] == '.' && s[i + 1] == '.'
}

/// The first structural defect of a dotted name, checked in the order
/// leading separator, trailing separator, empty segment. The empty text
/// consists of one empty segment.
pub open spec fn segment_violation(s: Seq<char>) -> Option<ConfigPathViolation> {
    if s.len() > 0 && s[0] == '.' {
        Some(ConfigPathViolation::LeadingSeparator)
    } else if s.len() > 0 && s.last() == '.' {
        Some(ConfigPathViolation::TrailingSeparator)
    } else if s.len() == 0 || has_adjacent_dots(s) {
        Some(ConfigPathViolation::EmptySegment)
    } else {
        None
    }
}

/// Why `s` is not a canonical property key, if it is not one.
pub open spec fn key_violation(s: Seq<char>) -> Option<ConfigPathViolation> {
    if s.len() == 0 {
        Some(ConfigPathViolation::Empty)
    } else {
        segment_violation(s)
    }
}

/// Why `s` is not a canonical section path, if it is not one. The empty path
/// names the root scope.
pub open spec fn path_violation(s: Seq<char>) -> Option<ConfigPathViolation> {
    if s.len() == 0 {
        None
    } else {
        segment_violation(s)
    }
}

/// Whether `s` is a canonical, non-empty property key.
pub open spec fn is_canonical_key(s: Seq<char>) -> bool {
    key_violation(s) is None
}

/// Whether `s` is a canonical section path (possibly empty).
pub open spec fn is_canonical_path(s: Seq<char>) -> bool {
    path_violation(s) is None
}

/// What follows `path` and a separator in a canonical key is itself a
/// canonical key.
pub proof fn lemma_child_key(path: Seq<char>, k: Seq<char>)
    requires
        is_canonical_key(k),
        path.push('.').is_prefix_of(k),
    ensures
        is_canonical_key(k.subrange(path.len() as int + 1, k.len() as int)),
{
    let n: int = path.len() as int + 1;
    let t = k.subrange(n, k.len() as int);
    assert(k[n - 1] == path.push('.')[n - 1]);
    if t.len() == 0 {
        assert(k.last() == '.');
    } else {
        if t[0] == '.' {
            assert(k[n - 1] == '.' && k[n] == '.');
            assert(has_adjacent_dots(k));
        }
        if t.last() == '.' {
            assert(k.last() == '.');
        }
        if has_adjacent_dots(t) {
            let i = choose|i: int| 0 <= i < t.len() - 1 && #[trigger] t[i] == '.' && t[i + 1] == '.';
            assert(k[n + i] == '.' && k[n + i + 1] == '.');
            assert(has_adjacent_dots(k));
        }
    }
}

/// Validates a non-empty dotted key or path.
pub fn validate_non_empty_path(value: &str) -> (r: Result<(), ConfigPathViolation>)
    ensures
        r matches Err(v) ==> segment_violation(value@) == Some(v),
        r is Ok ==> segment_violation(value@) is None,
{
    let v = chars_of(value);
    let n = v.len();
    if n > 0 && v[0] == '.' {
        return Err(ConfigPathViolation::LeadingSeparator);
    }
    if n > 0 && v[n - 1] == '.' {
        return Err(ConfigPathViolation::TrailingSeparator);
    }
    if n == 0 {
        return Err(ConfigPathViolation::EmptySegment);
    }
    let mut i: usize = 0;
    while i + 1 < n
        invariant
            n == v@.len(),
            v@ == value@,
            n > 0,
            v@[0] != '.',
            v@[n - 1] != '.',
            i < n,
            forall|j: int| 0 <= j < i ==> !(#[trigger] v@[j] == '.' && v@[j + 1] == '.'),
        decreases n - i,
    {
        if v[i] == '.' && v[i + 1] == '.' {
            assert(v@[i as int] == '.' && v@[i + 1] == '.');
            assert(has_adjacent_dots(value@));
            return Err(ConfigPathViolation::EmptySegment);
        }
        i = i + 1;
    }
    Ok(())
}

/// Validates a non-empty configuration property key.
pub fn validate_config_key(value: &str) -> (r: Result<(), ConfigPathViolation>)
    ensures
        r matches Err(v) ==> key_violation(value@) == Some(v),
        r is Ok <==> is_canonical_key(value@),
{
    if value.is_empty() {
        Err(ConfigPathViolation::Empty)
    } else {
        validate_non_empty_path(value)
    }
}

/// Validates a configuration path; the empty path is the root scope.
pub fn validate_config_path(value: &str) -> (r: Result<(), ConfigPathViolation>)
    ensures
        r matches Err(v) ==> path_violation(value@) == Some(v),
        r is Ok <==> is_canonical_path(value@),
{
    if value.is_empty() {
        Ok(())
    } else {
        validate_non_empty_path(value)
    }
}

/// Validates a property key and keeps the rejected input in the error.
pub fn ensure_config_key(value: &str) -> (r: Result<(), ConfigError>)
    ensures
        r is Ok <==> is_canonical_key(value@),
        r matches Err(e) ==> e.is_invalid_key(value@),
{
    match validate_config_key(value) {
        Ok(()) => Ok(()),
        Err(violation) => Err(ConfigError::InvalidKey { key: owned(value), violation }),
    }
}

/// Validates a section path and keeps the rejected input in the error.
pub fn ensure_config_path(value: &str) -> (r: Result<(), ConfigError>)
    ensures
        r is Ok <==> is_canonical_path(value@),
        r matches Err(e) ==> e.is_invalid_path(value@),
{
    match validate_config_path(value) {
        Ok(()) => Ok(()),
        Err(violation) => Err(ConfigError::InvalidPath { path: owned(value), violation }),
    }
}

/// Owned canonical configuration property key.
#[derive(Debug, PartialEq, Eq, Hash, PartialOrd, Ord)]
pub struct ConfigKey(String);

impl Clone for ConfigKey {
    /// Copies the canonical text.
    fn clone(&self) -> (r: Self)
        ensures
            r@ == self@,
    {
        proof {
            use_type_invariant(self);
        }
        ConfigKey(self.0.clone())
    }
}

impl View for ConfigKey {
    type V = Seq<char>;

    closed spec fn view(&self) -> Seq<char> {
        self.0@
    }
}

impl ConfigKey {
    /// Every key is canonical.
    #[verifier::type_invariant]
    closed spec fn canonical(self) -> bool {
        is_canonical_key(self.0@)
    }

    /// Parses a canonical, non-empty configuration property key.
    ///
    /// Fails with `ConfigError::InvalidKey` when `value` is empty, begins or
    /// ends with `.`, or contains an empty dotted segment.
    pub fn parse(value: String) -> (r: Result<ConfigKey, ConfigError>)
        ensures
            r is Ok <==> is_canonical_key(value@),
            r matches Ok(k) ==> k@ == value@,
            r matches Err(e) ==> e.is_invalid_key(value@),
    {
        let checked = validate_config_key(value.as_str());
        match checked {
            Ok(()) => {
                assert(is_canonical_key(value@));
                Ok(ConfigKey(value))
            },
            Err(violation) => Err(ConfigError::InvalidKey { key: value, violation }),
        }
    }

    /// Borrows the canonical key text.
    pub fn as_str(&self) -> (s: &str)
        ensures
            s@ == self@,
            is_canonical_key(s@),
    {
        proof {
            use_type_invariant(self);
        }
        self.0.as_str()
    }

    /// Consumes this key and returns its owned text.
    pub fn into_string(self) -> (s: String)
        ensures
            s@ == self@,
            is_canonical_key(s@),
    {
        proof {
            use_type_invariant(&self);
        }
        self.0
    }
}

/// Owned canonical configuration section path; the empty path is the root.
#[derive(Debug, PartialEq, Eq, Hash, PartialOrd, Ord)]
pub struct ConfigPath(String);

impl Clone for ConfigPath {
    /// Copies the canonical text.
    fn clone(&self) -> (r: Self)
        ensures
            r@ == self@,
    {
        proof {
            use_type_invariant(self);
        }
        ConfigPath(self.0.clone())
    }
}

impl View for ConfigPath {
    type V = Seq<char>;

    closed spec fn view(&self) -> Seq<char> {
        self.0@
    }
}

impl ConfigPath {
    /// Every path is canonical.
    #[verifier::type_invariant]
    closed spec fn canonical(self) -> bool {
        is_canonical_path(self.0@)
    }

    /// Parses a canonical configuration path.
    ///
    /// Fails with `ConfigError::InvalidPath` when a non-empty value begins or
    /// ends with `.`, or contains an empty dotted segment.
    pub fn parse(value: String) -> (r: Result<ConfigPath, ConfigError>)
        ensures
            r is Ok <==> is_canonical_path(value@),
            r matches Ok(p) ==> p@ == value@,
            r matches Err(e) ==> e.is_invalid_path(value@),
    {
        let checked = validate_config_path(value.as_str());
        match checked {
            Ok(()) => {
                assert(is_canonical_path(value@));
                Ok(ConfigPath(value))
            },
            Err(violation) => Err(ConfigError::InvalidPath { path: value, violation }),
        }
    }

    /// Borrows the canonical path text.
    pub fn as_str(&self) -> (s: &str)
        ensures
            s@ == self@,
            is_canonical_path(s@),
    {
        proof {
            use_type_invariant(self);
        }
        self.0.as_str()
    }

    /// Consumes this path and returns its owned text.
    pub fn into_string(self) -> (s: String)
        ensures
            s@ == self@,
            is_canonical_path(s@),
    {
        proof {
            use_type_invariant(&self);
        }
        self.0
    }
}

} // verus!
