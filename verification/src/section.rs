//! Read-only views of a configuration rooted at a section path, in which
//! property names are relative to that path.

use vstd::prelude::*;

use crate::config::child_prefix;
use crate::config::section_present;
use crate::config::Config;
use crate::error::ConfigError;
use crate::key::ensure_config_path;
use crate::key::is_canonical_key;
use crate::key::is_canonical_path;
use crate::options::ReadOptions;
use crate::property::Property;
use crate::text::chars_of;
use crate::text::concat;
use crate::text::lemma_seq_lt_common_prefix;
use crate::text::owned;
use crate::text::push_char;
use crate::text::seq_lt;
use crate::text::string_from_chars;
use crate::text::is_trimmed;
use crate::text::lemma_trim_dots;
use crate::text::trim_dots;
use crate::text::trim_dots_exec;

verus! {

/// The text that precedes, in the full key, every name relative to `path`:
/// nothing for the root, otherwise the path and a separator.
pub open spec fn scope_of(path: Seq<char>) -> Seq<char> {
    if path.len() == 0 {
        Seq::empty()
    } else {
        child_prefix(path)
    }
}

/// The full key that a name relative to `path` resolves to; the empty name
/// resolves to the path itself.
pub open spec fn resolve(path: Seq<char>, name: Seq<char>) -> Seq<char> {
    if path.len() == 0 {
        name
    } else if name.len() == 0 {
        path
    } else {
        child_prefix(path) + name
    }
}

/// The full key through which a relative name can see a property: none for
/// the empty name below the root, since the exact value at a section path
/// is not part of the section.
pub open spec fn visible_key(path: Seq<char>, name: Seq<char>) -> Option<Seq<char>> {
    if path.len() > 0 && name.len() == 0 {
        None
    } else {
        Some(resolve(path, name))
    }
}

/// The properties that a section at `path` shows, by relative name.
pub open spec fn visible_view(m: Map<Seq<char>, Property>, path: Seq<char>) -> Map<
    Seq<char>,
    Property,
> {
    Map::new(|k: Seq<char>| m.contains_key(scope_of(path) + k), |k: Seq<char>| m[scope_of(path) + k])
}

/// A canonical path is its own trimmed form.
proof fn lemma_trim_canonical(path: Seq<char>)
    requires
        is_canonical_path(path),
    ensures
        trim_dots(path) == path,
{
}

/// A read-only view of a configuration rooted at a section path.
#[derive(Debug)]
pub struct ConfigSection<'a> {
    config: &'a Config,
    path: String,
    read_options: Option<&'a ReadOptions>,
}

impl<'a> ConfigSection<'a> {
    /// Every key of the viewed configuration is canonical, and the path has
    /// no leading or trailing separator.
    #[verifier::type_invariant]
    closed spec fn well_formed(self) -> bool {
        &&& forall|k: Seq<char>| #[trigger] self.config@.contains_key(k) ==> is_canonical_key(k)
        &&& is_trimmed(self.path@)
    }

    /// The viewed configuration.
    pub closed spec fn spec_config(&self) -> Config {
        *self.config
    }

    /// The section path; empty for the root.
    pub closed spec fn spec_path(&self) -> Seq<char> {
        self.path@
    }

    /// The read options set on this view, if any.
    pub closed spec fn spec_read_options(&self) -> Option<ReadOptions> {
        match self.read_options {
            Some(o) => Some(*o),
            None => None,
        }
    }
}

impl<'a> View for ConfigSection<'a> {
    type V = Map<Seq<char>, Property>;

    /// The visible properties by relative name.
    open spec fn view(&self) -> Map<Seq<char>, Property> {
        visible_view(self.spec_config()@, self.spec_path())
    }
}

impl<'a> ConfigSection<'a> {
    /// A view of `config` at `path` with its leading and trailing
    /// separators removed, and the given read options.
    fn with_options(config: &'a Config, path: &str, read_options: Option<&'a ReadOptions>) -> (s:
        Self)
        ensures
            s.spec_config() == *config,
            s.spec_path() == trim_dots(path@),
            is_trimmed(s.spec_path()),
            s.spec_read_options() == (match read_options {
                Some(o) => Some(*o),
                None => None::<ReadOptions>,
            }),
    {
        let _ = config.iter();
        proof {
            lemma_trim_dots(path@);
        }
        ConfigSection { config, path: trim_dots_exec(path), read_options }
    }

    /// A view of `config` at `path`, with its leading and trailing separators
    /// removed, that reads with the configuration's own policy.
    pub fn new(config: &'a Config, path: &str) -> (s: Self)
        ensures
            s.spec_config() == *config,
            s.spec_path() == trim_dots(path@),
            trim_dots(s.spec_path()) == s.spec_path(),
            s.spec_read_options() is None,
    {
        Self::with_options(config, path, None)
    }

    /// A nested view at `path` below this one; leading and trailing
    /// separators of `path` are ignored, and the empty path is this view.
    pub fn section(&self, path: &str) -> (s: ConfigSection<'a>)
        ensures
            s.spec_config() == self.spec_config(),
            s.spec_read_options() == self.spec_read_options(),
            s.spec_path() == (if self.spec_path().len() == 0 {
                trim_dots(path@)
            } else if trim_dots(path@).len() == 0 {
                self.spec_path()
            } else {
                child_prefix(self.spec_path()) + trim_dots(path@)
            }),
            trim_dots(s.spec_path()) == s.spec_path(),
    {
        proof {
            use_type_invariant(self);
            lemma_trim_dots(path@);
            lemma_trim_dots(self.path@);
        }
        let child = trim_dots_exec(path);
        if self.path.as_str().is_empty() {
            ConfigSection { config: self.config, path: child, read_options: self.read_options }
        } else if child.as_str().is_empty() {
            Self::with_options(self.config, self.path.as_str(), self.read_options)
        } else {
            let mut joined = owned(self.path.as_str());
            push_char(&mut joined, '.');
            let joined = concat(joined.as_str(), child.as_str());
            proof {
                let j = joined@;
                assert(j[0] == self.path@[0]);
                assert(j.last() == child@.last());
                assert(is_trimmed(j));
                lemma_trim_dots(j);
            }
            Self::with_options(self.config, joined.as_str(), self.read_options)
        }
    }

    /// This view with `options` as its read options.
    pub fn with_read_options_override(self, options: &'a ReadOptions) -> (s: Self)
        ensures
            s.spec_config() == self.spec_config(),
            s.spec_path() == self.spec_path(),
            s.spec_read_options() == Some(*options),
    {
        proof {
            use_type_invariant(&self);
        }
        ConfigSection { config: self.config, path: self.path, read_options: Some(options) }
    }

    /// This view, for a shorter lifetime, with `options` as its read
    /// options.
    pub fn with_read_options_view<'b>(self, options: &'b ReadOptions) -> (s: ConfigSection<'b>) where
        'a: 'b,

        ensures
            s.spec_config() == self.spec_config(),
            s.spec_path() == self.spec_path(),
            s.spec_read_options() == Some(*options),
    {
        proof {
            use_type_invariant(&self);
        }
        ConfigSection { config: self.config, path: self.path, read_options: Some(options) }
    }

    /// Returns the section path; empty for the root.
    pub fn path(&self) -> (r: &str)
        ensures
            r@ == self.spec_path(),
    {
        self.path.as_str()
    }

    /// Returns the read options set on this view, if any.
    pub fn read_options(&self) -> (r: Option<&'a ReadOptions>)
        ensures
            r matches Some(o) ==> self.spec_read_options() == Some(*o),
            r is None ==> self.spec_read_options() is None,
    {
        self.read_options
    }

    /// Returns the full key that the relative `name` resolves to.
    pub fn resolve_key(&self, name: &str) -> (r: String)
        ensures
            r@ == resolve(self.spec_path(), name@),
    {
        if self.path.as_str().is_empty() {
            owned(name)
        } else if name.is_empty() {
            owned(self.path.as_str())
        } else {
            let mut key = owned(self.path.as_str());
            push_char(&mut key, '.');
            concat(key.as_str(), name)
        }
    }

    /// Returns the full key through which the relative `name` sees a
    /// property, or `None` for the empty name below the root.
    pub fn visible_property_key(&self, name: &str) -> (r: Option<String>)
        ensures
            r matches Some(k) ==> visible_key(self.spec_path(), name@) == Some(k@),
            r is None ==> visible_key(self.spec_path(), name@) is None,
    {
        if !self.path.as_str().is_empty() && name.is_empty() {
            None
        } else {
            Some(self.resolve_key(name))
        }
    }

    /// The error reporting that the relative `name` has no property.
    pub fn missing_property_error(&self, name: &str) -> (e: ConfigError)
        ensures
            e.is_not_found(resolve(self.spec_path(), name@)),
    {
        ConfigError::PropertyNotFound(self.resolve_key(name))
    }

    /// The text that precedes the full key of every relative name.
    fn scope(&self) -> (r: String)
        ensures
            r@ == scope_of(self.spec_path()),
    {
        if self.path.as_str().is_empty() {
            String::new()
        } else {
            let mut s = owned(self.path.as_str());
            push_char(&mut s, '.');
            s
        }
    }

    /// Returns the property that the relative `name` refers to, if any.
    pub fn get_property(&self, name: &str) -> (r: Option<&'a Property>)
        ensures
            r matches Some(p) ==> self@.contains_key(name@) && *p == self@[name@],
            r is None ==> !self@.contains_key(name@),
    {
        proof {
            use_type_invariant(self);
        }
        let config: &'a Config = self.config;
        match self.visible_property_key(name) {
            None => {
                proof {
                    let full = scope_of(self.spec_path()) + name@;
                    assert(full.last() == '.');
                    assert(!is_canonical_key(full));
                }
                None
            },
            Some(key) => {
                proof {
                    assert(key@ =~= scope_of(self.spec_path()) + name@);
                }
                match config.get_property(key.as_str()) {
                    Ok(found) => found,
                    Err(_) => None,
                }
            },
        }
    }

    /// Whether the relative `name` refers to a property.
    pub fn contains(&self, name: &str) -> (b: bool)
        ensures
            b == self@.contains_key(name@),
    {
        self.get_property(name).is_some()
    }

    /// Returns the visible properties whose relative names start with
    /// `prefix`, with those names, in ascending order.
    pub fn iter_prefix(&self, prefix: &str) -> (r: Vec<(String, &'a Property)>)
        ensures
            forall|i: int, j: int|
                0 <= i < j < r@.len() ==> seq_lt((#[trigger] r@[i]).0@, (#[trigger] r@[j]).0@),
            forall|i: int|
                0 <= i < r@.len() ==> {
                    &&& prefix@.is_prefix_of((#[trigger] r@[i]).0@)
                    &&& self@.contains_key(r@[i].0@)
                    &&& self@[r@[i].0@] == *r@[i].1
                },
            forall|k: Seq<char>|
                #![trigger self@.contains_key(k)]
                self@.contains_key(k) && prefix@.is_prefix_of(k) ==> exists|i: int|
                    0 <= i < r@.len() && (#[trigger] r@[i]).0@ == k,
    {
        let config: &'a Config = self.config;
        let scope = self.scope();
        let cut = chars_of(scope.as_str()).len();
        let full_prefix = concat(scope.as_str(), prefix);
        let found = config.iter_prefix(full_prefix.as_str());
        let ghost sc = scope@;
        let ghost m = config@;
        let mut r: Vec<(String, &'a Property)> = Vec::new();
        let mut i: usize = 0;
        while i < found.len()
            invariant
                sc == scope_of(self.spec_path()),
                m == config@,
                *config == self.spec_config(),
                cut == sc.len(),
                full_prefix@ == sc + prefix@,
                i <= found@.len(),
                r@.len() == i,
                forall|a: int, b: int|
                    0 <= a < b < found@.len() ==> seq_lt(
                        (#[trigger] found@[a]).spec_name(),
                        (#[trigger] found@[b]).spec_name(),
                    ),
                forall|a: int|
                    0 <= a < found@.len() ==> {
                        &&& full_prefix@.is_prefix_of((#[trigger] found@[a]).spec_name())
                        &&& m.contains_key(found@[a].spec_name())
                        &&& m[found@[a].spec_name()] == *found@[a]
                    },
                forall|j: int|
                    0 <= j < i ==> {
                        &&& (#[trigger] r@[j]).1 == found@[j]
                        &&& sc + r@[j].0@ == found@[j].spec_name()
                    },
            decreases found@.len() - i,
        {
            let p = found[i];
            let v = chars_of(p.name());
            proof {
                assert(sc.is_prefix_of(p.spec_name()));
            }
            let relative = string_from_chars(&v, cut, v.len());
            proof {
                assert(sc + relative@ =~= p.spec_name());
            }
            r.push((relative, p));
            i = i + 1;
        }
        proof {
            assert forall|a: int, b: int| 0 <= a < b < r@.len() implies seq_lt(
                (#[trigger] r@[a]).0@,
                (#[trigger] r@[b]).0@,
            ) by {
                lemma_seq_lt_common_prefix(sc, r@[a].0@, r@[b].0@);
            }
            assert forall|a: int| 0 <= a < r@.len() implies {
                &&& prefix@.is_prefix_of((#[trigger] r@[a]).0@)
                &&& self@.contains_key(r@[a].0@)
                &&& self@[r@[a].0@] == *r@[a].1
            } by {
                let name = found@[a].spec_name();
                assert((sc + prefix@).is_prefix_of(name));
                assert(prefix@ =~= (sc + prefix@).subrange(sc.len() as int, (sc + prefix@).len() as int));
                assert(r@[a].0@ =~= name.subrange(sc.len() as int, name.len() as int));
                assert(prefix@ =~= r@[a].0@.subrange(0, prefix@.len() as int));
            }
            assert forall|k: Seq<char>| #![trigger self@.contains_key(k)]
                self@.contains_key(k) && prefix@.is_prefix_of(k) implies exists|a: int|
                0 <= a < r@.len() && (#[trigger] r@[a]).0@ == k by {
                let full = sc + k;
                assert(m.contains_key(full));
                assert(full.subrange(0, (sc + prefix@).len() as int) =~= sc + prefix@);
                assert((sc + prefix@).is_prefix_of(full));
                let a = choose|a: int| 0 <= a < found@.len() && (#[trigger] found@[a]).spec_name() == full;
                assert(sc + r@[a].0@ == sc + k);
                assert(r@[a].0@ =~= (sc + r@[a].0@).subrange(sc.len() as int, (sc + k).len() as int));
                assert(k =~= (sc + k).subrange(sc.len() as int, (sc + k).len() as int));
            }
        }
        r
    }

    /// Returns every visible property with its relative name, in ascending
    /// order.
    pub fn iter(&self) -> (r: Vec<(String, &'a Property)>)
        ensures
            forall|i: int, j: int|
                0 <= i < j < r@.len() ==> seq_lt((#[trigger] r@[i]).0@, (#[trigger] r@[j]).0@),
            forall|i: int|
                0 <= i < r@.len() ==> self@.contains_key((#[trigger] r@[i]).0@) && self@[r@[i].0@]
                    == *r@[i].1,
            forall|k: Seq<char>| #[trigger]
                self@.contains_key(k) ==> exists|i: int| 0 <= i < r@.len() && (#[trigger] r@[i]).0@ == k,
    {
        let r = self.iter_prefix("");
        proof {
            assert forall|k: Seq<char>| #[trigger] self@.contains_key(k) implies exists|i: int|
                0 <= i < r@.len() && (#[trigger] r@[i]).0@ == k by {
                assert(""@.is_prefix_of(k)) by {
                    reveal_strlit("");
                    assert(k.subrange(0, 0) =~= ""@);
                }
            }
        }
        r
    }

    /// Returns the visible relative names in ascending order.
    pub fn keys(&self) -> (r: Vec<String>)
        ensures
            forall|i: int, j: int| 0 <= i < j < r@.len() ==> seq_lt(#[trigger] r@[i]@, #[trigger] r@[j]@),
            forall|i: int| 0 <= i < r@.len() ==> self@.contains_key(#[trigger] r@[i]@),
            forall|k: Seq<char>| #[trigger]
                self@.contains_key(k) ==> exists|i: int| 0 <= i < r@.len() && r@[i]@ == k,
    {
        let entries = self.iter();
        let mut r: Vec<String> = Vec::new();
        let mut i: usize = 0;
        while i < entries.len()
            invariant
                i <= entries@.len(),
                r@.len() == i,
                forall|j: int| 0 <= j < i ==> (#[trigger] r@[j])@ == entries@[j].0@,
            decreases entries@.len() - i,
        {
            r.push(owned(entries[i].0.as_str()));
            i = i + 1;
        }
        proof {
            assert forall|a: int, b: int| 0 <= a < b < r@.len() implies seq_lt(
                #[trigger] r@[a]@,
                #[trigger] r@[b]@,
            ) by {
                assert(seq_lt(entries@[a].0@, entries@[b].0@));
            }
            assert forall|a: int| 0 <= a < r@.len() implies self@.contains_key(#[trigger] r@[a]@) by {
                assert(self@.contains_key(entries@[a].0@));
            }
            assert forall|k: Seq<char>| #[trigger] self@.contains_key(k) implies exists|a: int|
                0 <= a < r@.len() && r@[a]@ == k by {
                let a = choose|a: int| 0 <= a < entries@.len() && (#[trigger] entries@[a]).0@ == k;
                assert(r@[a]@ == k);
            }
        }
        r
    }

    /// Returns the number of visible properties.
    pub fn len(&self) -> (n: usize)
        ensures
            self@.dom().finite(),
            n == self@.dom().len(),
    {
        let keys = self.keys();
        proof {
            let ks = keys@.map_values(|s: String| s@);
            assert forall|a: int, b: int| 0 <= a < ks.len() && 0 <= b < ks.len() && a != b implies ks[a]
                != ks[b] by {
                if a < b {
                    assert(seq_lt(keys@[a]@, keys@[b]@));
                    crate::text::lemma_seq_lt_irreflexive(ks[a]);
                } else {
                    assert(seq_lt(keys@[b]@, keys@[a]@));
                    crate::text::lemma_seq_lt_irreflexive(ks[b]);
                }
            }
            assert(ks.no_duplicates());
            ks.unique_seq_to_set();
            assert forall|k: Seq<char>| self@.dom().contains(k) <==> ks.to_set().contains(k) by {
                if self@.dom().contains(k) {
                    let a = choose|a: int| 0 <= a < keys@.len() && keys@[a]@ == k;
                    assert(ks[a] == k);
                }
                if ks.to_set().contains(k) {
                    let a = choose|a: int| 0 <= a < ks.len() && ks[a] == k;
                    assert(self@.contains_key(keys@[a]@));
                }
            }
            assert(self@.dom() =~= ks.to_set());
        }
        keys.len()
    }

    /// Whether no property is visible.
    pub fn is_empty(&self) -> (b: bool)
        ensures
            b <==> !exists|k: Seq<char>| self@.contains_key(k),
    {
        let entries = self.iter();
        proof {
            if entries@.len() > 0 {
                assert(self@.contains_key(entries@[0].0@));
            }
        }
        entries.len() == 0
    }

    /// Whether some visible relative name starts with `prefix`.
    pub fn contains_key_prefix(&self, prefix: &str) -> (b: bool)
        ensures
            b <==> exists|k: Seq<char>| self@.contains_key(k) && prefix@.is_prefix_of(k),
    {
        let found = self.iter_prefix(prefix);
        proof {
            if found@.len() > 0 {
                assert(self@.contains_key(found@[0].0@));
            }
        }
        found.len() > 0
    }

    /// Whether the nested section at `path` has visible properties;
    /// leading and trailing separators of `path` are ignored, and the empty
    /// path is this view.
    pub fn contains_section(&self, path: &str) -> (b: bool)
        ensures
            b == section_present(self@, trim_dots(path@)),
    {
        let path = trim_dots_exec(path);
        if path.as_str().is_empty() {
            return !self.is_empty();
        }
        let mut children = path;
        push_char(&mut children, '.');
        self.contains_key_prefix(children.as_str())
    }
}

impl<'a> Clone for ConfigSection<'a> {
    /// A view of the same configuration at the same path with the same read
    /// options.
    fn clone(&self) -> (r: Self)
        ensures
            r.spec_config() == self.spec_config(),
            r.spec_path() == self.spec_path(),
            r.spec_read_options() == self.spec_read_options(),
    {
        proof {
            use_type_invariant(self);
        }
        ConfigSection { config: self.config, path: self.path.clone(), read_options: self.read_options }
    }
}

impl Config {
    /// A read-only view rooted at the canonical path `path`; the empty path
    /// is the root. Names read through it are relative to `path`.
    ///
    /// Fails with `InvalidPath` when `path` is not canonical.
    pub fn section(&self, path: &str) -> (r: Result<ConfigSection<'_>, ConfigError>)
        ensures
            r is Err <==> !is_canonical_path(path@),
            r matches Err(e) ==> e.is_invalid_path(path@),
            r matches Ok(s) ==> s.spec_config() == *self && s.spec_path() == path@
                && s.spec_read_options() is None,
    {
        ensure_config_path(path)?;
        proof {
            lemma_trim_canonical(path@);
        }
        Ok(ConfigSection::new(self, path))
    }

    /// The section at the canonical path `path` when it has properties
    /// below it, otherwise `None`; an exact property at `path` does not
    /// count.
    ///
    /// Fails with `InvalidPath` when `path` is not canonical.
    pub fn section_if_present(&self, path: &str) -> (r: Result<
        Option<ConfigSection<'_>>,
        ConfigError,
    >)
        ensures
            r is Err <==> !is_canonical_path(path@),
            r matches Err(e) ==> e.is_invalid_path(path@),
            r matches Ok(o) ==> (o is Some <==> section_present(self@, path@)),
            r matches Ok(Some(s)) ==> s.spec_config() == *self && s.spec_path() == path@
                && s.spec_read_options() is None,
    {
        if self.contains_section(path)? {
            Ok(Some(self.section(path)?))
        } else {
            Ok(None)
        }
    }
}

} // verus!
