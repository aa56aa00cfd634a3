//! Decisions of structured (serde based) reads that do not depend on the
//! target type: which value a read starts from, how ignored fields become
//! unknown-property paths, and how deserializer errors become configuration
//! errors.

use vstd::prelude::*;

use crate::config::section_present;
use crate::config::Config;
use crate::error::ConfigError;
use crate::key::is_canonical_key;
use crate::property::Property;
use crate::text::concat;
use crate::text::owned;
use crate::text::push_char;
use crate::text::seq_lt;
use crate::text::str_eq;
use crate::text::str_lt;
use crate::text::strip_leading_dots;
use crate::text::strip_leading_dots_exec;

verus! {

/// The full path of an ignored field, given the path being read: leading
/// separators of the field path are dropped, and an empty part adds
/// nothing.
pub open spec fn joined_path(prefix: Seq<char>, ignored: Seq<char>) -> Seq<char> {
    let rest = strip_leading_dots(ignored);
    if prefix.len() == 0 {
        rest
    } else if rest.len() == 0 {
        prefix
    } else {
        prefix.push('.') + rest
    }
}

/// Joins the path being read with the path of a field that the target type
/// ignored.
pub fn join_ignored_path(prefix: &str, ignored_path: &str) -> (r: String)
    ensures
        r@ == joined_path(prefix@, ignored_path@),
{
    let rest = strip_leading_dots_exec(ignored_path);
    if prefix.is_empty() {
        rest
    } else if rest.as_str().is_empty() {
        owned(prefix)
    } else {
        let mut joined = owned(prefix);
        push_char(&mut joined, '.');
        concat(joined.as_str(), rest.as_str())
    }
}

/// The texts of `items`, in order.
pub open spec fn texts(items: Seq<String>) -> Seq<Seq<char>> {
    items.map_values(|s: String| s@)
}

/// `s` strictly ascends.
pub open spec fn strictly_ascending(s: Seq<Seq<char>>) -> bool {
    forall|i: int, j: int| 0 <= i < j < s.len() ==> seq_lt(#[trigger] s[i], #[trigger] s[j])
}

/// Sorts texts in ascending order and drops duplicates.
pub fn sorted_unique(items: Vec<String>) -> (r: Vec<String>)
    ensures
        strictly_ascending(texts(r@)),
        forall|x: Seq<char>| texts(r@).contains(x) <==> texts(items@).contains(x),
{
    let mut r: Vec<String> = Vec::new();
    let mut i: usize = 0;
    while i < items.len()
        invariant
            i <= items@.len(),
            strictly_ascending(texts(r@)),
            forall|x: Seq<char>| texts(r@).contains(x) <==> texts(items@.take(i as int)).contains(x),
        decreases items@.len() - i,
    {
        let item = items[i].as_str();
        let ghost before = texts(r@);
        let mut pos: usize = 0;
        while pos < r.len() && str_lt(r[pos].as_str(), item)
            invariant
                before == texts(r@),
                pos <= r@.len(),
                strictly_ascending(before),
                forall|j: int| 0 <= j < pos ==> seq_lt(#[trigger] before[j], item@),
            decreases r@.len() - pos,
        {
            pos = pos + 1;
        }
        let present = pos < r.len() && str_eq(r[pos].as_str(), item);
        proof {
            assert(items@.take(i + 1) =~= items@.take(i as int).push(items@[i as int]));
            let t = texts(items@.take(i as int));
            let t1 = texts(items@.take(i + 1));
            assert(t1 =~= t.push(item@));
            assert forall|x: Seq<char>| t1.contains(x) <==> (t.contains(x) || x == item@) by {
                if t1.contains(x) {
                    let k = choose|k: int| 0 <= k < t1.len() && t1[k] == x;
                    if k < t.len() {
                        assert(t[k] == x);
                    }
                }
                if t.contains(x) {
                    let k = choose|k: int| 0 <= k < t.len() && t[k] == x;
                    assert(t1[k] == x);
                }
                if x == item@ {
                    assert(t1[t.len() as int] == x);
                }
            }
        }
        if !present {
            proof {
                if pos < before.len() {
                    crate::text::lemma_seq_lt_total(before[pos as int], item@);
                }
                assert forall|j: int| pos <= j < before.len() implies seq_lt(item@, #[trigger] before[j]) by {
                    if j > pos {
                        crate::text::lemma_seq_lt_transitive(item@, before[pos as int], before[j]);
                    }
                }
            }
            r.insert(pos, owned(item));
            proof {
                let after = texts(r@);
                assert(after =~= before.insert(pos as int, item@));
                assert forall|a: int, b: int| 0 <= a < b < after.len() implies seq_lt(
                    #[trigger] after[a],
                    #[trigger] after[b],
                ) by {
                    if b < pos {
                    } else if b == pos {
                    } else if a < pos {
                        crate::text::lemma_seq_lt_transitive(after[a], item@, after[b]);
                    } else if a == pos {
                    } else {
                        assert(after[a] == before[a - 1]);
                        assert(after[b] == before[b - 1]);
                    }
                }
                assert forall|x: Seq<char>| after.contains(x) <==> (before.contains(x) || x == item@) by {
                    if after.contains(x) {
                        let k = choose|k: int| 0 <= k < after.len() && after[k] == x;
                        if k < pos {
                            assert(before[k] == x);
                        } else if k > pos {
                            assert(before[k - 1] == x);
                        }
                    }
                    if before.contains(x) {
                        let k = choose|k: int| 0 <= k < before.len() && before[k] == x;
                        if k < pos {
                            assert(after[k] == x);
                        } else {
                            assert(after[k + 1] == x);
                        }
                    }
                    if x == item@ {
                        assert(after[pos as int] == x);
                    }
                }
            }
        } else {
            proof {
                assert(before[pos as int] == item@);
                assert(before.contains(item@));
            }
        }
        i = i + 1;
    }
    proof {
        assert(items@.take(items@.len() as int) =~= items@);
    }
    r
}

/// The unknown-property paths reported for the fields a structured read at
/// `path` ignored: the distinct ignored paths in ascending order, each
/// joined to `path`.
pub fn unknown_property_paths(path: &str, ignored: Vec<String>) -> (r: Vec<String>)
    ensures
        exists|u: Seq<Seq<char>>|
            {
                &&& strictly_ascending(u)
                &&& forall|x: Seq<char>| u.contains(x) <==> texts(ignored@).contains(x)
                &&& r@.len() == u.len()
                &&& forall|i: int| 0 <= i < u.len() ==> (#[trigger] r@[i])@ == joined_path(path@, u[i])
            },
{
    let unique = sorted_unique(ignored);
    let mut r: Vec<String> = Vec::new();
    let mut i: usize = 0;
    while i < unique.len()
        invariant
            i <= unique@.len(),
            r@.len() == i,
            forall|j: int| 0 <= j < i ==> (#[trigger] r@[j])@ == joined_path(path@, unique@[j]@),
        decreases unique@.len() - i,
    {
        r.push(join_ignored_path(path, unique[i].as_str()));
        i = i + 1;
    }
    proof {
        let u = texts(unique@);
        assert forall|j: int| 0 <= j < u.len() implies (#[trigger] r@[j])@ == joined_path(path@, u[j]) by {
            assert(u[j] == unique@[j]@);
        }
    }
    r
}

/// Completes a structured read at `path` that succeeded: it stands when the
/// target type ignored no field, and otherwise fails with
/// `UnknownProperties` listing the ignored paths.
pub fn check_unknown_properties(path: &str, ignored: Vec<String>) -> (r: Result<(), ConfigError>)
    ensures
        r is Ok <==> ignored@.len() == 0,
        r matches Err(e) ==> (e matches ConfigError::UnknownProperties { paths } && exists|
            u: Seq<Seq<char>>,
        |
            {
                &&& strictly_ascending(u)
                &&& forall|x: Seq<char>| u.contains(x) <==> texts(ignored@).contains(x)
                &&& paths@.len() == u.len()
                &&& forall|i: int|
                    0 <= i < u.len() ==> (#[trigger] paths@[i])@ == joined_path(path@, u[i])
            }),
{
    if ignored.len() == 0 {
        return Ok(());
    }
    Err(ConfigError::UnknownProperties { paths: unknown_property_paths(path, ignored) })
}

/// Where a structured read at a path starts from.
pub enum DeserializeRoot<'a> {
    /// The properties below the path, as a nested structure.
    Subtree,
    /// The single property stored exactly at the path.
    Exact(&'a Property),
}

/// Text naming the exact-value side of a key conflict.
pub open spec fn exact_value_text() -> Seq<char> {
    "exact value"@
}

/// Text naming the nested-keys side of a key conflict.
pub open spec fn nested_keys_text() -> Seq<char> {
    "nested child keys"@
}

impl Config {
    /// Chooses where a structured read at `prefix` starts: the whole
    /// configuration for the empty prefix; otherwise the exact property at
    /// `prefix` when there is one and nothing below it, the subtree when
    /// there is no exact property.
    ///
    /// Fails with `InvalidKey` for a non-empty, non-canonical prefix, and
    /// with `KeyConflict` when both an exact property and nested keys exist.
    pub fn deserialize_root(&self, prefix: &str) -> (r: Result<DeserializeRoot<'_>, ConfigError>)
        ensures
            prefix@.len() == 0 ==> r matches Ok(DeserializeRoot::Subtree),
            prefix@.len() > 0 && !is_canonical_key(prefix@) ==> (r matches Err(e)
                && e.is_invalid_key(prefix@)),
            prefix@.len() > 0 && is_canonical_key(prefix@) ==> {
                &&& self@.contains_key(prefix@) && section_present(self@, prefix@) ==> (r matches Err(
                    ConfigError::KeyConflict { path, existing, incoming },
                ) && path@ == prefix@ && existing@ == exact_value_text() && incoming@
                    == nested_keys_text())
                &&& self@.contains_key(prefix@) && !section_present(self@, prefix@) ==> (r matches Ok(
                    DeserializeRoot::Exact(p),
                ) && *p == self@[prefix@])
                &&& !self@.contains_key(prefix@) ==> r matches Ok(DeserializeRoot::Subtree)
            },
    {
        if prefix.is_empty() {
            return Ok(DeserializeRoot::Subtree);
        }
        let exact = self.get_property(prefix)?;
        let has_children = self.contains_section(prefix)?;
        match exact {
            Some(p) => {
                if has_children {
                    Err(
                        ConfigError::KeyConflict {
                            path: owned(prefix),
                            existing: owned("exact value"),
                            incoming: owned("nested child keys"),
                        },
                    )
                } else {
                    Ok(DeserializeRoot::Exact(p))
                }
            },
            None => Ok(DeserializeRoot::Subtree),
        }
    }
}

/// Error produced while deserializing a structured read.
pub enum ConfigDeserializeError {
    /// A diagnostic of the deserializer.
    Message {
        /// The diagnostic text, kept only for display.
        message: String,
        /// The most specific configuration path reached before the failure.
        path: Option<String>,
    },
    /// A configuration error that keeps its kind and path.
    Config(ConfigError),
}

/// Text of the error that a failed structured read reports.
pub open spec fn type_mismatch_text() -> Seq<char> {
    "configuration value does not match the requested type"@
}

impl ConfigDeserializeError {
    /// Wraps a configuration error.
    pub fn from_config(error: ConfigError) -> (r: Self)
        ensures
            r == ConfigDeserializeError::Config(error),
    {
        ConfigDeserializeError::Config(error)
    }

    /// A diagnostic of the deserializer, not yet tied to a path.
    pub fn custom(message: String) -> (r: Self)
        ensures
            r == (ConfigDeserializeError::Message { message, path: None }),
    {
        ConfigDeserializeError::Message { message, path: None }
    }

    /// Ties a diagnostic without a path to `path`; other errors are kept.
    pub fn with_path(self, path: String) -> (r: Self)
        ensures
            (self matches ConfigDeserializeError::Message { path: None, .. }) ==> (r matches ConfigDeserializeError::Message { message, path: Some(p) } && p == path && (self matches ConfigDeserializeError::Message { message: m, .. } && m == message)),
            !(self matches ConfigDeserializeError::Message { path: None, .. }) ==> r == self,
    {
        match self {
            ConfigDeserializeError::Message { message, path: None } => ConfigDeserializeError::Message {
                message,
                path: Some(path),
            },
            error => error,
        }
    }

    /// Converts into a configuration error: a diagnostic becomes a
    /// `DeserializeError` at its own path, or at `path` when it has none,
    /// with a fixed message that does not reveal values; a configuration
    /// error is returned as it is.
    pub fn into_config_error(self, path: &str) -> (r: ConfigError)
        ensures
            self matches ConfigDeserializeError::Config(e) ==> r == e,
            self matches ConfigDeserializeError::Message { path: at, .. } ==> (r matches ConfigError::DeserializeError { path: p, message, source: None } && message@ == type_mismatch_text() && p@ == (match at {
                Some(a) => a@,
                None => path@,
            })),
    {
        match self {
            ConfigDeserializeError::Message { path: at, .. } => ConfigError::DeserializeError {
                path: match at {
                    Some(a) => a,
                    None => owned(path),
                },
                message: owned("configuration value does not match the requested type"),
                source: None,
            },
            ConfigDeserializeError::Config(error) => error,
        }
    }

    /// The text of the error: the diagnostic itself for a deserializer
    /// diagnostic, and `None` for a configuration error, whose text its
    /// own display gives.
    pub fn diagnostic(&self) -> (r: Option<&str>)
        ensures
            self matches ConfigDeserializeError::Message { message, .. } ==> (r matches Some(m) && m@ == message@),
            self matches ConfigDeserializeError::Config(_) ==> r is None,
    {
        match self {
            ConfigDeserializeError::Message { message, .. } => Some(message.as_str()),
            ConfigDeserializeError::Config(_) => None,
        }
    }
}

} // verus!
