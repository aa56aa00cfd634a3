//! The configuration store: properties under canonical keys, kept in
//! ascending key order, with final-value protection.

use vstd::prelude::*;

use qubit_datatype::DataType;
use qubit_value::ValueContainer;

use crate::entries::has_name;
use crate::entries::index_of_name;
use crate::entries::lemma_absent_between;
use crate::entries::lemma_ascending_sides;
use crate::entries::lemma_map_at;
use crate::entries::lemma_map_empty;
use crate::entries::lemma_map_insert;
use crate::entries::lemma_map_remove;
use crate::entries::lemma_map_shape;
use crate::entries::lemma_map_take_step;
use crate::entries::lemma_map_update;
use crate::entries::names_ascending;
use crate::entries::property_map;
use crate::error::keyed_error_for_shape;
use crate::error::shape_of_value_error;
use crate::error::ConfigError;
use crate::key::ensure_config_key;
use crate::key::ensure_config_path;
use crate::key::key_violation;
use crate::key::validate_config_key;
use crate::key::ConfigPathViolation;
use crate::key::is_canonical_key;
use crate::key::is_canonical_path;
use crate::key::lemma_child_key;
use crate::options::ReadPolicy;
use crate::property::container_add_outcome;
use crate::property::container_is_unset;
use crate::property::container_is_unset_of;
use crate::property::container_after_add;
use crate::property::container_len;
use crate::property::container_type;
use crate::property::unset_scalar;
use crate::property::Property;
use crate::text::lemma_seq_lt_total;
use crate::text::lemma_seq_lt_transitive;
use crate::text::chars_of;
use crate::text::concat;
use crate::text::lemma_seq_lt_common_prefix;
use crate::text::owned;
use crate::text::seq_lt;
use crate::text::push_char;
use crate::text::str_eq;
use crate::text::str_starts_with;
use crate::text::string_from_chars;
use crate::text::str_lt;

verus! {

/// `m` holds a final property under `name`.
pub open spec fn is_final_in(m: Map<Seq<char>, Property>, name: Seq<char>) -> bool {
    m.contains_key(name) && m[name].spec_is_final()
}

/// `name` is the least final key of `m`.
pub open spec fn is_least_final(m: Map<Seq<char>, Property>, name: Seq<char>) -> bool {
    &&& is_final_in(m, name)
    &&& forall|k: Seq<char>| #[trigger] is_final_in(m, k) ==> !seq_lt(k, name)
}

/// Keys strictly ascend and each is canonical.
pub open spec fn entries_well_formed(s: Seq<Property>) -> bool {
    &&& names_ascending(s)
    &&& forall|i: int| 0 <= i < s.len() ==> is_canonical_key(#[trigger] s[i].spec_name())
}

/// Well-formed entries stand for a finite map with one key per entry, in
/// which every property sits under its own canonical key.
pub proof fn lemma_entries_view(s: Seq<Property>)
    requires
        entries_well_formed(s),
    ensures
        property_map(s).dom().finite(),
        property_map(s).dom().len() == s.len(),
        forall|k: Seq<char>| #[trigger]
            property_map(s).contains_key(k) ==> is_canonical_key(k) && property_map(s)[k].spec_name()
                == k,
{
    lemma_map_shape(s);
    assert forall|k: Seq<char>| #[trigger] property_map(s).contains_key(k) implies is_canonical_key(
        k,
    ) by {
        let i = index_of_name(s, k);
        assert(is_canonical_key(s[i].spec_name()));
    }
}

/// The effect of a successful `set`: the property `name` holds `values`,
/// is not final, keeps its description (a new one has none); nothing else
/// changes.
pub open spec fn set_effect(before: Config, after: Config, name: Seq<char>, values: ValueContainer) -> bool {
    &&& after@ == before@.insert(name, after@[name])
    &&& after@[name].spec_name() == name
    &&& after@[name].spec_value() == values
    &&& !after@[name].spec_is_final()
    &&& before@.contains_key(name) ==> after@[name].spec_description()
        == before@[name].spec_description()
    &&& !before@.contains_key(name) ==> after@[name].spec_description() is None
    &&& after.same_settings(before)
}

/// The effect of a successful `remove`: `name` is gone; nothing else
/// changes.
pub open spec fn remove_effect(before: Config, after: Config, name: Seq<char>) -> bool {
    &&& after@ == before@.remove(name)
    &&& after.same_settings(before)
}

/// The effect of a successful `insert_property`: `property` is stored under
/// its name; nothing else changes.
pub open spec fn insert_effect(before: Config, after: Config, property: Property) -> bool {
    &&& after@ == before@.insert(property.spec_name(), property)
    &&& after.same_settings(before)
}

/// The effect of a successful `merge_properties`: each incoming property
/// replaces the one of the same key; nothing else changes.
pub open spec fn merge_effect(before: Config, incoming: Map<Seq<char>, Property>, after: Config) -> bool {
    &&& after@ == before@.union_prefer_right(incoming)
    &&& after.same_settings(before)
}

/// Configuration manager: a set of named properties with a description and
/// the default policy for reads.
///
/// Every property is stored under its own name, which is a canonical key.
/// Properties are kept in ascending key order.
#[derive(Debug)]
pub struct Config {
    description: Option<String>,
    properties: Vec<Property>,
    default_read_policy: ReadPolicy,
}

impl Config {
    /// The stored properties in ascending key order.
    pub closed spec fn spec_entries(&self) -> Seq<Property> {
        self.properties@
    }

    /// The configuration description.
    pub closed spec fn spec_description(&self) -> Option<Seq<char>> {
        match self.description {
            Some(d) => Some(d@),
            None => None,
        }
    }

    /// The default policy for reads.
    pub closed spec fn spec_read_policy(&self) -> ReadPolicy {
        self.default_read_policy
    }

    /// Keys strictly ascend, each is canonical, and each property is stored
    /// under its own name.
    #[verifier::type_invariant]
    closed spec fn well_formed(self) -> bool {
        entries_well_formed(self.properties@)
    }

    /// Description and read policy agree with those of `other`.
    pub open spec fn same_settings(self, other: Config) -> bool {
        &&& self.spec_description() == other.spec_description()
        &&& self.spec_read_policy() == other.spec_read_policy()
    }

}

impl View for Config {
    type V = Map<Seq<char>, Property>;

    /// The properties by key.
    open spec fn view(&self) -> Map<Seq<char>, Property> {
        property_map(self.spec_entries())
    }
}

impl Config {
    /// Creates an empty configuration with no description and the default
    /// read policy.
    pub fn new() -> (r: Config)
        ensures
            r@ == Map::<Seq<char>, Property>::empty(),
            r.spec_description() is None,
            r.spec_read_policy().is_default(),
    {
        Config::builder().build()
    }

    /// Creates a builder for an empty configuration.
    pub fn builder() -> (b: ConfigBuilder)
        ensures
            b.description is None,
            b.default_read_policy.is_default(),
    {
        ConfigBuilder::new()
    }

    /// Returns the configuration description.
    pub fn description(&self) -> (r: Option<&str>)
        ensures
            r matches Some(d) ==> self.spec_description() == Some(d@),
            r is None ==> self.spec_description() is None,
    {
        match &self.description {
            Some(d) => Some(d.as_str()),
            None => None,
        }
    }

    /// Replaces the configuration description.
    pub fn set_description(&mut self, description: Option<String>)
        ensures
            final(self).spec_description() == (match description {
                Some(d) => Some(d@),
                None => None::<Seq<char>>,
            }),
            final(self)@ == old(self)@,
            final(self).spec_read_policy() == old(self).spec_read_policy(),
    {
        proof {
            use_type_invariant(&*self);
        }
        self.description = description;
    }

    /// Returns the default policy for reads.
    pub fn default_read_policy(&self) -> (r: &ReadPolicy)
        ensures
            *r == self.spec_read_policy(),
    {
        &self.default_read_policy
    }

    /// Replaces the default policy for reads, returning the configuration
    /// for chaining.
    pub fn set_default_read_policy(&mut self, policy: ReadPolicy) -> (r: &mut Self)
        ensures
            r.spec_read_policy() == policy,
            r@ == old(self)@,
            r.spec_description() == old(self).spec_description(),
            *final(self) == *final(r),
    {
        proof {
            use_type_invariant(&*self);
        }
        self.default_read_policy = policy;
        self
    }

    /// Returns the number of properties.
    pub fn len(&self) -> (n: usize)
        ensures
            n == self@.dom().len(),
    {
        proof {
            use_type_invariant(self);
            lemma_entries_view(self.properties@);
        }
        self.properties.len()
    }

    /// Returns whether there are no properties.
    pub fn is_empty(&self) -> (b: bool)
        ensures
            b <==> self@.dom().len() == 0,
            b <==> self@ == Map::<Seq<char>, Property>::empty(),
    {
        proof {
            use_type_invariant(self);
            lemma_entries_view(self.properties@);
            if self@.dom().len() == 0 {
                assert(self@ =~= Map::<Seq<char>, Property>::empty());
            }
        }
        self.properties.len() == 0
    }

    /// Finds the position of `name`, or the position where it belongs.
    fn locate(&self, name: &str) -> (r: Result<usize, usize>)
        ensures
            r matches Ok(i) ==> i < self.properties@.len() && self.properties@[i as int].spec_name()
                == name@,
            r matches Err(pos) ==> {
                &&& pos <= self.properties@.len()
                &&& forall|j: int|
                    0 <= j < pos ==> seq_lt(#[trigger] self.properties@[j].spec_name(), name@)
                &&& forall|j: int|
                    pos <= j < self.properties@.len() ==> seq_lt(
                        name@,
                        #[trigger] self.properties@[j].spec_name(),
                    )
            },
    {
        proof {
            use_type_invariant(self);
        }
        let ghost s = self.properties@;
        let mut lo: usize = 0;
        let mut hi: usize = self.properties.len();
        while lo < hi
            invariant
                s == self.properties@,
                names_ascending(s),
                lo <= hi <= s.len(),
                forall|j: int| 0 <= j < lo ==> seq_lt(#[trigger] s[j].spec_name(), name@),
                forall|j: int| hi <= j < s.len() ==> seq_lt(name@, #[trigger] s[j].spec_name()),
            decreases hi - lo,
        {
            let mid = lo + (hi - lo) / 2;
            let here = self.properties[mid].name();
            if str_eq(here, name) {
                return Ok(mid);
            }
            if str_lt(here, name) {
                proof {
                    assert forall|j: int| 0 <= j < mid + 1 implies seq_lt(
                        #[trigger] s[j].spec_name(),
                        name@,
                    ) by {
                        if j < mid {
                            lemma_seq_lt_transitive(s[j].spec_name(), s[mid as int].spec_name(), name@);
                        }
                    }
                }
                lo = mid + 1;
            } else {
                proof {
                    lemma_seq_lt_total(here@, name@);
                    assert forall|j: int| mid <= j < s.len() implies seq_lt(
                        name@,
                        #[trigger] s[j].spec_name(),
                    ) by {
                        if j > mid {
                            lemma_seq_lt_transitive(name@, s[mid as int].spec_name(), s[j].spec_name());
                        }
                    }
                }
                hi = mid;
            }
        }
        Err(lo)
    }

    /// Finds the stored property named `name`.
    fn find(&self, name: &str) -> (r: Option<usize>)
        ensures
            r matches Some(i) ==> {
                &&& i < self.properties@.len()
                &&& self@.contains_key(name@)
                &&& self@[name@] == self.properties@[i as int]
            },
            r is None ==> !self@.contains_key(name@),
    {
        proof {
            use_type_invariant(self);
        }
        match self.locate(name) {
            Ok(i) => {
                proof {
                    lemma_map_at(self.properties@, i as int);
                }
                Some(i)
            },
            Err(pos) => {
                proof {
                    lemma_absent_between(self.properties@, pos as int, name@);
                }
                None
            },
        }
    }

    /// Whether a property named `name` exists.
    ///
    /// Fails with `InvalidKey` when `name` is not a canonical key.
    pub fn contains(&self, name: &str) -> (r: Result<bool, ConfigError>)
        ensures
            r is Err <==> !is_canonical_key(name@),
            r matches Err(e) ==> e.is_invalid_key(name@),
            r matches Ok(b) ==> b == self@.contains_key(name@),
    {
        ensure_config_key(name)?;
        Ok(self.find(name).is_some())
    }

    /// Returns whether the property `name` exists with unset storage: `false`
    /// for a missing property and for one that holds values, an empty
    /// collection included; an invalid key fails.
    pub fn is_unset(&self, name: &str) -> (r: Result<bool, ConfigError>)
        ensures
            r is Err <==> !is_canonical_key(name@),
            r matches Err(e) ==> e.is_invalid_key(name@),
            r matches Ok(b) ==> (b <==> (self@.contains_key(name@) && container_is_unset_of(
                self@[name@].spec_value(),
            ))),
    {
        match self.get_property(name) {
            Err(e) => Err(e),
            Ok(Some(p)) => Ok(container_is_unset(p.value())),
            Ok(None) => Ok(false),
        }
    }

    /// Returns the property named `name`, if any.
    ///
    /// Fails with `InvalidKey` when `name` is not a canonical key.
    pub fn get_property(&self, name: &str) -> (r: Result<Option<&Property>, ConfigError>)
        ensures
            r is Err <==> !is_canonical_key(name@),
            r matches Err(e) ==> e.is_invalid_key(name@),
            r matches Ok(p) ==> (p is Some <==> self@.contains_key(name@)),
            r matches Ok(Some(p)) ==> *p == self@[name@],
    {
        ensure_config_key(name)?;
        match self.find(name) {
            Some(i) => Ok(Some(&self.properties[i])),
            None => Ok(None),
        }
    }

    /// Returns the property named `name`.
    ///
    /// Fails with `InvalidKey` when `name` is not a canonical key, and with
    /// `PropertyNotFound` when no such property exists.
    pub fn get_property_by_name(&self, name: &str) -> (r: Result<&Property, ConfigError>)
        ensures
            !is_canonical_key(name@) ==> (r matches Err(e) && e.is_invalid_key(name@)),
            is_canonical_key(name@) && !self@.contains_key(name@) ==> (r matches Err(e)
                && e.is_not_found(name@)),
            is_canonical_key(name@) && self@.contains_key(name@) ==> (r matches Ok(p) && *p
                == self@[name@]),
    {
        ensure_config_key(name)?;
        match self.find(name) {
            Some(i) => Ok(&self.properties[i]),
            None => Err(ConfigError::PropertyNotFound(owned(name))),
        }
    }

    /// Returns all keys in ascending order.
    pub fn keys(&self) -> (r: Vec<String>)
        ensures
            r@.len() == self@.dom().len(),
            forall|i: int| 0 <= i < r@.len() ==> self@.contains_key(#[trigger] r@[i]@),
            forall|i: int, j: int| 0 <= i < j < r@.len() ==> seq_lt(#[trigger] r@[i]@, #[trigger] r@[j]@),
            forall|k: Seq<char>| #[trigger]
                self@.contains_key(k) ==> exists|i: int| 0 <= i < r@.len() && r@[i]@ == k,
    {
        proof {
            use_type_invariant(self);
            lemma_entries_view(self.properties@);
        }
        let ghost s = self.properties@;
        let mut r: Vec<String> = Vec::new();
        let mut i: usize = 0;
        while i < self.properties.len()
            invariant
                s == self.properties@,
                names_ascending(s),
                i <= s.len(),
                r@.len() == i,
                forall|j: int| 0 <= j < i ==> (#[trigger] r@[j])@ == s[j].spec_name(),
            decreases s.len() - i,
        {
            r.push(owned(self.properties[i].name()));
            i = i + 1;
        }
        proof {
            assert forall|j: int| 0 <= j < r@.len() implies self@.contains_key(#[trigger] r@[j]@) by {
                lemma_map_at(s, j);
            }
            assert forall|k: Seq<char>| #[trigger] self@.contains_key(k) implies exists|j: int|
                0 <= j < r@.len() && r@[j]@ == k by {
                let j = index_of_name(s, k);
                assert(r@[j]@ == k);
            }
        }
        r
    }

    /// Returns all properties in ascending key order.
    pub fn iter(&self) -> (r: &[Property])
        ensures
            entries_well_formed(r@),
            property_map(r@) == self@,
            self@.dom().finite(),
            forall|k: Seq<char>| #[trigger]
                self@.contains_key(k) ==> is_canonical_key(k) && self@[k].spec_name() == k,
    {
        proof {
            use_type_invariant(self);
            lemma_entries_view(self.properties@);
        }
        self.properties.as_slice()
    }
}

/// Text of the error that rejects storing a property under another key.
pub open spec fn name_mismatch_message(key: Seq<char>, name: Seq<char>) -> Seq<char> {
    "Property name mismatch: key '"@ + key + "' != property '"@ + name + "'"@
}

/// `name` is the least key that `incoming` holds and that is final in `m`.
pub open spec fn is_least_blocked(
    m: Map<Seq<char>, Property>,
    incoming: Map<Seq<char>, Property>,
    name: Seq<char>,
) -> bool {
    &&& is_final_in(m, name)
    &&& incoming.contains_key(name)
    &&& forall|k: Seq<char>| #[trigger]
        is_final_in(m, k) && incoming.contains_key(k) ==> !seq_lt(k, name)
}

/// Builds the text of the error that rejects storing a property under
/// another key.
pub fn name_mismatch_text(key: &str, name: &str) -> (r: String)
    ensures
        r@ == name_mismatch_message(key@, name@),
{
    let a = concat("Property name mismatch: key '", key);
    let b = concat(a.as_str(), "' != property '");
    let c = concat(b.as_str(), name);
    concat(c.as_str(), "'")
}

impl Config {
    /// Stores `p` under its name, replacing any property of that name.
    fn put(&mut self, p: Property)
        requires
            is_canonical_key(p.spec_name()),
        ensures
            final(self)@ == old(self)@.insert(p.spec_name(), p),
            final(self).same_settings(*old(self)),
    {
        proof {
            use_type_invariant(&*self);
        }
        let loc = self.locate(p.name());
        let mut props: Vec<Property> = Vec::new();
        std::mem::swap(&mut props, &mut self.properties);
        let ghost s = props@;
        match loc {
            Ok(i) => {
                proof {
                    lemma_map_update(s, i as int, p);
                }
                props.set(i, p);
            },
            Err(pos) => {
                proof {
                    lemma_map_insert(s, pos as int, p);
                }
                props.insert(pos, p);
            },
        }
        proof {
            assert forall|j: int| 0 <= j < props@.len() implies is_canonical_key(
                #[trigger] props@[j].spec_name(),
            ) by {
                match loc {
                    Ok(i) => {
                        if j != i {
                            assert(props@[j] == s[j]);
                        }
                    },
                    Err(pos) => {
                        if j < pos {
                            assert(props@[j] == s[j]);
                        } else if j > pos {
                            assert(props@[j] == s[j - 1]);
                        }
                    },
                }
            }
        }
        self.properties = props;
    }

    /// Takes out the property at position `i`.
    fn take_at(&mut self, i: usize) -> (p: Property)
        requires
            i < old(self).spec_entries().len(),
        ensures
            p == old(self).spec_entries()[i as int],
            old(self)@.contains_key(p.spec_name()),
            final(self)@ == old(self)@.remove(p.spec_name()),
            final(self).same_settings(*old(self)),
    {
        proof {
            use_type_invariant(&*self);
            lemma_map_at(self.properties@, i as int);
        }
        let mut props: Vec<Property> = Vec::new();
        std::mem::swap(&mut props, &mut self.properties);
        let ghost s = props@;
        proof {
            lemma_map_remove(s, i as int);
        }
        let p = props.remove(i);
        proof {
            assert forall|j: int| 0 <= j < props@.len() implies is_canonical_key(
                #[trigger] props@[j].spec_name(),
            ) by {
                if j < i {
                    assert(props@[j] == s[j]);
                } else {
                    assert(props@[j] == s[j + 1]);
                }
            }
        }
        self.properties = props;
        p
    }

    /// Checks that no final property is named `name`; a missing property is
    /// fine, since a write may create it.
    pub fn ensure_property_not_final(&self, name: &str) -> (r: Result<(), ConfigError>)
        ensures
            r is Err <==> is_final_in(self@, name@),
            r matches Err(e) ==> e.is_final_error(name@),
    {
        match self.find(name) {
            Some(i) => {
                if self.properties[i].is_final() {
                    Err(ConfigError::PropertyIsFinal(owned(name)))
                } else {
                    Ok(())
                }
            },
            None => Ok(()),
        }
    }

    /// Checks that no property is final, naming the least final key
    /// otherwise.
    pub fn ensure_no_final_properties(&self) -> (r: Result<(), ConfigError>)
        ensures
            r is Err <==> exists|k: Seq<char>| is_final_in(self@, k),
            r matches Err(e) ==> (e matches ConfigError::PropertyIsFinal(n) && is_least_final(
                self@,
                n@,
            )),
    {
        proof {
            use_type_invariant(self);
        }
        let ghost s = self.properties@;
        let mut i: usize = 0;
        while i < self.properties.len()
            invariant
                s == self.properties@,
                names_ascending(s),
                i <= s.len(),
                forall|j: int| 0 <= j < i ==> !(#[trigger] s[j]).spec_is_final(),
            decreases s.len() - i,
        {
            if self.properties[i].is_final() {
                let name = owned(self.properties[i].name());
                proof {
                    lemma_map_at(s, i as int);
                    lemma_ascending_sides(s, i as int);
                    assert(is_final_in(self@, name@));
                    assert forall|k: Seq<char>| #[trigger] is_final_in(self@, k) implies !seq_lt(
                        k,
                        name@,
                    ) by {
                        let j = index_of_name(s, k);
                        lemma_map_at(s, j);
                        if j > i {
                            crate::text::lemma_seq_lt_asymmetric(name@, k);
                        } else if j == i {
                            crate::text::lemma_seq_lt_irreflexive(k);
                        }
                    }
                }
                return Err(ConfigError::PropertyIsFinal(name));
            }
            i = i + 1;
        }
        proof {
            assert forall|k: Seq<char>| !is_final_in(self@, k) by {
                if self@.contains_key(k) {
                    let j = index_of_name(s, k);
                    lemma_map_at(s, j);
                }
            }
        }
        Ok(())
    }

    /// Sets the final flag of an existing property. A final property stays
    /// final: marking it final again is allowed, unmarking it is not.
    ///
    /// Fails with `InvalidKey` for a non-canonical key, `PropertyNotFound`
    /// for a missing property and `PropertyIsFinal` when unmarking a final
    /// property; the configuration is then unchanged.
    pub fn set_final(&mut self, name: &str, is_final: bool) -> (r: Result<(), ConfigError>)
        ensures
            !is_canonical_key(name@) ==> (r matches Err(e) && e.is_invalid_key(name@)),
            is_canonical_key(name@) && !old(self)@.contains_key(name@) ==> (r matches Err(e)
                && e.is_not_found(name@)),
            is_canonical_key(name@) && is_final_in(old(self)@, name@) && !is_final ==> (r matches Err(
                e,
            ) && e.is_final_error(name@)),
            r is Err ==> *final(self) == *old(self),
            r is Ok <==> is_canonical_key(name@) && old(self)@.contains_key(name@) && (is_final
                || !is_final_in(old(self)@, name@)),
            r is Ok ==> {
                &&& final(self)@ == old(self)@.insert(name@, final(self)@[name@])
                &&& final(self)@[name@].spec_is_final() == is_final
                &&& final(self)@[name@].spec_name() == name@
                &&& final(self)@[name@].spec_value() == old(self)@[name@].spec_value()
                &&& final(self)@[name@].spec_description() == old(self)@[name@].spec_description()
                &&& final(self).same_settings(*old(self))
            },
    {
        ensure_config_key(name)?;
        match self.find(name) {
            None => Err(ConfigError::PropertyNotFound(owned(name))),
            Some(i) => {
                if self.properties[i].is_final() && !is_final {
                    return Err(ConfigError::PropertyIsFinal(owned(name)));
                }
                let mut p = self.properties[i].duplicate();
                p.set_final(is_final);
                self.put(p);
                Ok(())
            },
        }
    }

    /// Removes a non-final property and returns it, or `None` when there is
    /// no property of that name.
    ///
    /// Fails with `InvalidKey` for a non-canonical key and `PropertyIsFinal`
    /// for a final property; the configuration is then unchanged.
    pub fn remove(&mut self, name: &str) -> (r: Result<Option<Property>, ConfigError>)
        ensures
            !is_canonical_key(name@) ==> (r matches Err(e) && e.is_invalid_key(name@)),
            is_canonical_key(name@) && is_final_in(old(self)@, name@) ==> (r matches Err(e)
                && e.is_final_error(name@)),
            r is Err ==> *final(self) == *old(self),
            r is Ok <==> is_canonical_key(name@) && !is_final_in(old(self)@, name@),
            r matches Ok(p) ==> {
                &&& (p is Some <==> old(self)@.contains_key(name@))
                &&& (p matches Some(q) ==> q == old(self)@[name@])
                &&& remove_effect(*old(self), *final(self), name@)
            },
    {
        ensure_config_key(name)?;
        match self.find(name) {
            None => {
                proof {
                    assert(self@.remove(name@) =~= self@);
                }
                Ok(None)
            },
            Some(i) => {
                if self.properties[i].is_final() {
                    return Err(ConfigError::PropertyIsFinal(owned(name)));
                }
                let p = self.take_at(i);
                Ok(Some(p))
            },
        }
    }

    /// Removes every property, unless one of them is final.
    ///
    /// Fails with `PropertyIsFinal` naming the least final key; the
    /// configuration is then unchanged.
    pub fn clear(&mut self) -> (r: Result<(), ConfigError>)
        ensures
            r is Err <==> exists|k: Seq<char>| is_final_in(old(self)@, k),
            r matches Err(e) ==> (e matches ConfigError::PropertyIsFinal(n) && is_least_final(
                old(self)@,
                n@,
            )),
            r is Err ==> *final(self) == *old(self),
            r is Ok ==> final(self)@ == Map::<Seq<char>, Property>::empty() && final(self).same_settings(*old(self)),
    {
        self.ensure_no_final_properties()?;
        proof {
            use_type_invariant(&*self);
        }
        self.properties = Vec::new();
        proof {
            lemma_map_empty(self.properties@);
        }
        Ok(())
    }

    /// Sets the value of a property, creating a non-final property without
    /// description when there is none of that name.
    ///
    /// Fails with `InvalidKey` for a non-canonical key and `PropertyIsFinal`
    /// for a final property; the configuration is then unchanged.
    pub fn set(&mut self, name: &str, values: ValueContainer) -> (r: Result<(), ConfigError>)
        ensures
            !is_canonical_key(name@) ==> (r matches Err(e) && e.is_invalid_key(name@)),
            is_canonical_key(name@) && is_final_in(old(self)@, name@) ==> (r matches Err(e)
                && e.is_final_error(name@)),
            r is Err ==> *final(self) == *old(self),
            r is Ok <==> is_canonical_key(name@) && !is_final_in(old(self)@, name@),
            r is Ok ==> set_effect(*old(self), *final(self), name@, values),
    {
        ensure_config_key(name)?;
        self.ensure_property_not_final(name)?;
        let p = match self.find(name) {
            Some(i) => {
                let mut p = self.properties[i].duplicate();
                p.set_value(values);
                p
            },
            None => Property::with_value(owned(name), values),
        };
        self.put(p);
        Ok(())
    }

    /// Appends values to a property, creating a non-final property without
    /// description when there is none of that name.
    ///
    /// Fails with `InvalidKey` for a non-canonical key and `PropertyIsFinal`
    /// for a final property, leaving the configuration unchanged; and with
    /// the keyed value error when the values do not fit the stored ones, in
    /// which case only that property's value may have changed.
    pub fn add(&mut self, name: &str, values: ValueContainer) -> (r: Result<(), ConfigError>)
        ensures
            !is_canonical_key(name@) ==> (r matches Err(e) && e.is_invalid_key(name@)),
            is_canonical_key(name@) && is_final_in(old(self)@, name@) ==> (r matches Err(e)
                && e.is_final_error(name@)),
            !is_canonical_key(name@) || is_final_in(old(self)@, name@) ==> *final(self) == *old(self),
            is_canonical_key(name@) && !is_final_in(old(self)@, name@) ==> {
                &&& final(self)@ == old(self)@.insert(name@, final(self)@[name@])
                &&& final(self)@[name@].spec_name() == name@
                &&& !final(self)@[name@].spec_is_final()
                &&& final(self).same_settings(*old(self))
                &&& old(self)@.contains_key(name@) ==> final(self)@[name@].spec_description()
                    == old(self)@[name@].spec_description()
                &&& !old(self)@.contains_key(name@) ==> {
                    &&& r is Ok
                    &&& final(self)@[name@].spec_value() == values
                    &&& final(self)@[name@].spec_description() is None
                }
                &&& old(self)@.contains_key(name@) ==> {
                    &&& final(self)@[name@].spec_value() == container_after_add(
                        old(self)@[name@].spec_value(),
                        values,
                    )
                    &&& container_add_outcome(old(self)@[name@].spec_value(), values) is Ok
                        ==> r is Ok
                    &&& container_add_outcome(old(self)@[name@].spec_value(), values) matches Err(
                        failure,
                    ) ==> (r matches Err(e) && keyed_error_for_shape(
                        name@,
                        shape_of_value_error(failure),
                        e,
                    ))
                }
            },
    {
        ensure_config_key(name)?;
        self.ensure_property_not_final(name)?;
        match self.find(name) {
            Some(i) => {
                let mut p = self.properties[i].duplicate();
                let added = p.add(values);
                self.put(p);
                match added {
                    Ok(()) => Ok(()),
                    Err(error) => Err(ConfigError::from_value_error(name, error)),
                }
            },
            None => {
                self.put(Property::with_value(owned(name), values));
                Ok(())
            },
        }
    }

    /// Stores `property` under `name`, replacing any non-final property of
    /// that name.
    ///
    /// Fails with `InvalidKey` for a non-canonical key, `MergeError` when
    /// `name` differs from the property's own name, and `PropertyIsFinal`
    /// for a final property; the configuration is then unchanged.
    pub fn insert_property(&mut self, name: &str, property: Property) -> (r: Result<
        (),
        ConfigError,
    >)
        ensures
            !is_canonical_key(name@) ==> (r matches Err(e) && e.is_invalid_key(name@)),
            is_canonical_key(name@) && property.spec_name() != name@ ==> (r matches Err(
                ConfigError::MergeError(m),
            ) && m@ == name_mismatch_message(name@, property.spec_name())),
            is_canonical_key(name@) && property.spec_name() == name@ && is_final_in(old(self)@, name@) ==> (r matches Err(e) && e.is_final_error(name@)),
            r is Err ==> *final(self) == *old(self),
            r is Ok <==> is_canonical_key(name@) && property.spec_name() == name@ && !is_final_in(old(self)@, name@),
            r is Ok ==> insert_effect(*old(self), *final(self), property),
    {
        ensure_config_key(name)?;
        if !str_eq(property.name(), name) {
            return Err(ConfigError::MergeError(name_mismatch_text(name, property.name())));
        }
        self.ensure_property_not_final(name)?;
        self.put(property);
        Ok(())
    }

    /// Stores a non-final property named `name` with no value of the given
    /// type, replacing any non-final property of that name.
    ///
    /// Fails with `InvalidKey` for a non-canonical key and `PropertyIsFinal`
    /// for a final property; the configuration is then unchanged.
    pub fn set_null(&mut self, name: &str, data_type: DataType) -> (r: Result<(), ConfigError>)
        ensures
            !is_canonical_key(name@) ==> (r matches Err(e) && e.is_invalid_key(name@)),
            is_canonical_key(name@) && is_final_in(old(self)@, name@) ==> (r matches Err(e)
                && e.is_final_error(name@)),
            r is Err ==> *final(self) == *old(self),
            r is Ok <==> is_canonical_key(name@) && !is_final_in(old(self)@, name@),
            r is Ok ==> {
                &&& final(self)@ == old(self)@.insert(name@, final(self)@[name@])
                &&& final(self)@[name@].spec_name() == name@
                &&& container_len(final(self)@[name@].spec_value()) == 0
                &&& container_type(final(self)@[name@].spec_value()) == data_type
                &&& final(self)@[name@].spec_description() is None
                &&& !final(self)@[name@].spec_is_final()
                &&& final(self).same_settings(*old(self))
            },
    {
        let property = Property::with_value(owned(name), unset_scalar(data_type));
        self.insert_property(name, property)
    }
}

/// The text that precedes the keys of a section's children.
pub open spec fn child_prefix(path: Seq<char>) -> Seq<char> {
    path.push('.')
}

/// Whether the section at `path` has a property: any property for the
/// root, otherwise one whose key extends the path by a further segment.
pub open spec fn section_present(m: Map<Seq<char>, Property>, path: Seq<char>) -> bool {
    if path.len() == 0 {
        exists|k: Seq<char>| m.contains_key(k)
    } else {
        exists|k: Seq<char>| m.contains_key(k) && child_prefix(path).is_prefix_of(k)
    }
}

impl Config {
    /// Merges the properties of `source` into this configuration: each one
    /// replaces the property of the same key. The description and read
    /// policy of `source` are ignored.
    ///
    /// Fails with `PropertyIsFinal`, naming the least key of `source` that
    /// is final here; the configuration is then unchanged.
    pub fn merge_properties(&mut self, source: Config) -> (r: Result<(), ConfigError>)
        ensures
            r is Err <==> exists|k: Seq<char>| is_final_in(old(self)@, k) && source@.contains_key(k),
            r matches Err(e) ==> (e matches ConfigError::PropertyIsFinal(n) && is_least_blocked(
                old(self)@,
                source@,
                n@,
            )),
            r is Err ==> *final(self) == *old(self),
            r is Ok ==> merge_effect(*old(self), source@, *final(self)),
    {
        proof {
            use_type_invariant(&source);
            use_type_invariant(&*self);
        }
        let ghost src = source.properties@;
        let mut i: usize = 0;
        while i < source.properties.len()
            invariant
                src == source.properties@,
                source@ == property_map(src),
                names_ascending(src),
                *self == *old(self),
                i <= src.len(),
                forall|j: int| 0 <= j < i ==> !is_final_in(self@, (#[trigger] src[j]).spec_name()),
            decreases src.len() - i,
        {
            let name = source.properties[i].name();
            if let Err(e) = self.ensure_property_not_final(name) {
                proof {
                    lemma_map_at(src, i as int);
                    lemma_ascending_sides(src, i as int);
                    assert forall|k: Seq<char>| #[trigger]
                        is_final_in(self@, k) && source@.contains_key(k) implies !seq_lt(
                        k,
                        name@,
                    ) by {
                        let j = index_of_name(src, k);
                        lemma_map_at(src, j);
                        if j > i {
                            crate::text::lemma_seq_lt_asymmetric(name@, k);
                        } else if j == i {
                            crate::text::lemma_seq_lt_irreflexive(k);
                        }
                    }
                }
                return Err(e);
            }
            i = i + 1;
        }
        proof {
            assert forall|k: Seq<char>| !(is_final_in(self@, k) && source@.contains_key(k)) by {
                if source@.contains_key(k) {
                    let j = index_of_name(src, k);
                    lemma_map_at(src, j);
                }
            }
        }
        let ghost base = self@;
        proof {
            lemma_map_empty(src.take(0));
            assert(base.union_prefer_right(property_map(src.take(0))) =~= base);
        }
        let mut i: usize = 0;
        while i < source.properties.len()
            invariant
                src == source.properties@,
                entries_well_formed(src),
                i <= src.len(),
                self@ == base.union_prefer_right(property_map(src.take(i as int))),
                self.same_settings(*old(self)),
            decreases src.len() - i,
        {
            let p = source.properties[i].duplicate();
            proof {
                lemma_map_take_step(src, i as int);
                let m = property_map(src.take(i as int));
                assert(base.union_prefer_right(m.insert(p.spec_name(), p)) =~= base.union_prefer_right(
                    m,
                ).insert(p.spec_name(), p));
            }
            self.put(p);
            i = i + 1;
        }
        proof {
            assert(src.take(src.len() as int) =~= src);
        }
        Ok(())
    }

    /// Returns the properties whose keys start with `prefix`, in ascending
    /// key order.
    pub fn iter_prefix(&self, prefix: &str) -> (r: Vec<&Property>)
        ensures
            forall|i: int, j: int|
                0 <= i < j < r@.len() ==> seq_lt(
                    (#[trigger] r@[i]).spec_name(),
                    (#[trigger] r@[j]).spec_name(),
                ),
            forall|i: int|
                0 <= i < r@.len() ==> {
                    &&& prefix@.is_prefix_of((#[trigger] r@[i]).spec_name())
                    &&& self@.contains_key(r@[i].spec_name())
                    &&& self@[r@[i].spec_name()] == *r@[i]
                },
            forall|k: Seq<char>|
                #![trigger self@.contains_key(k)]
                self@.contains_key(k) && prefix@.is_prefix_of(k) ==> exists|i: int|
                    0 <= i < r@.len() && (#[trigger] r@[i]).spec_name() == k,
    {
        proof {
            use_type_invariant(self);
        }
        let ghost s = self.properties@;
        let mut r: Vec<&Property> = Vec::new();
        let ghost mut idx: Seq<int> = Seq::empty();
        let mut i: usize = 0;
        while i < self.properties.len()
            invariant
                s == self.properties@,
                names_ascending(s),
                i <= s.len(),
                r@.len() == idx.len(),
                forall|m: int|
                    0 <= m < idx.len() ==> 0 <= #[trigger] idx[m] < i && *r@[m] == s[idx[m]]
                        && prefix@.is_prefix_of(s[idx[m]].spec_name()),
                forall|a: int, b: int| 0 <= a < b < idx.len() ==> #[trigger] idx[a] < #[trigger] idx[b],
                forall|j: int|
                    0 <= j < i && prefix@.is_prefix_of((#[trigger] s[j]).spec_name()) ==> exists|m: int|
                        0 <= m < idx.len() && idx[m] == j,
            decreases s.len() - i,
        {
            let ghost old_idx = idx;
            let p = &self.properties[i];
            if str_starts_with(p.name(), prefix) {
                r.push(p);
                proof {
                    idx = idx.push(i as int);
                }
            }
            proof {
                assert forall|j: int|
                    0 <= j < i + 1 && prefix@.is_prefix_of((#[trigger] s[j]).spec_name()) implies exists|
                    m: int,
                | 0 <= m < idx.len() && idx[m] == j by {
                    if j < i {
                        let m = choose|m: int| 0 <= m < old_idx.len() && old_idx[m] == j;
                        assert(idx[m] == j);
                    } else {
                        assert(idx[idx.len() - 1] == j);
                    }
                }
            }
            i = i + 1;
        }
        proof {
            assert forall|a: int, b: int| 0 <= a < b < r@.len() implies seq_lt(
                (#[trigger] r@[a]).spec_name(),
                (#[trigger] r@[b]).spec_name(),
            ) by {
                assert(idx[a] < idx[b]);
            }
            assert forall|m: int| 0 <= m < r@.len() implies {
                &&& prefix@.is_prefix_of((#[trigger] r@[m]).spec_name())
                &&& self@.contains_key(r@[m].spec_name())
                &&& self@[r@[m].spec_name()] == *r@[m]
            } by {
                lemma_map_at(s, idx[m]);
            }
            assert forall|k: Seq<char>| #![trigger self@.contains_key(k)]
                self@.contains_key(k) && prefix@.is_prefix_of(k) implies exists|m: int|
                0 <= m < r@.len() && (#[trigger] r@[m]).spec_name() == k by {
                let j = index_of_name(s, k);
                let m = choose|m: int| 0 <= m < idx.len() && idx[m] == j;
                assert(r@[m].spec_name() == k);
            }
        }
        r
    }

    /// Whether some key starts with `prefix`.
    pub fn contains_key_prefix(&self, prefix: &str) -> (b: bool)
        ensures
            b <==> exists|k: Seq<char>| self@.contains_key(k) && prefix@.is_prefix_of(k),
    {
        let found = self.iter_prefix(prefix);
        proof {
            if found@.len() > 0 {
                assert(self@.contains_key(found@[0].spec_name()));
            }
        }
        found.len() > 0
    }

    /// Whether the section at the canonical path `path` has properties: for
    /// the empty path any property counts; otherwise an exact property at
    /// `path`, or one under a sibling name such as `path2`, does not.
    ///
    /// Fails with `InvalidPath` when `path` is not canonical.
    pub fn contains_section(&self, path: &str) -> (r: Result<bool, ConfigError>)
        ensures
            r is Err <==> !is_canonical_path(path@),
            r matches Err(e) ==> e.is_invalid_path(path@),
            r matches Ok(b) ==> b == section_present(self@, path@),
    {
        ensure_config_path(path)?;
        if path.is_empty() {
            let empty = self.is_empty();
            proof {
                if !empty {
                    use_type_invariant(self);
                    lemma_entries_view(self.properties@);
                    lemma_map_at(self.properties@, 0);
                }
            }
            return Ok(!empty);
        }
        let mut children = owned(path);
        push_char(&mut children, '.');
        Ok(self.contains_key_prefix(children.as_str()))
    }
}

/// `q` is `p` stored under the name `name`.
pub open spec fn is_renamed(q: Property, p: Property, name: Seq<char>) -> bool {
    &&& q.spec_name() == name
    &&& q.spec_value() == p.spec_value()
    &&& q.spec_description() == p.spec_description()
    &&& q.spec_is_final() == p.spec_is_final()
}

/// `q` is what a subtree copy keeps of `p`: `p` itself, or `p` under its
/// key with the first `cut` characters removed.
pub open spec fn kept_as(q: Property, p: Property, strip: bool, cut: int) -> bool {
    if strip {
        is_renamed(q, p, p.spec_name().skip(cut))
    } else {
        q == p
    }
}

/// `sub` holds exactly the properties of `m` below `path`, under their full
/// keys.
pub open spec fn is_kept_subtree(
    m: Map<Seq<char>, Property>,
    path: Seq<char>,
    sub: Map<Seq<char>, Property>,
) -> bool {
    &&& forall|k: Seq<char>|
        #![trigger sub.contains_key(k)]
        #![trigger m.contains_key(k)]
        sub.contains_key(k) <==> m.contains_key(k) && child_prefix(path).is_prefix_of(k)
    &&& forall|k: Seq<char>| #[trigger] sub.contains_key(k) ==> sub[k] == m[k]
}

/// `sub` holds the properties of `m` below `path`, under their keys
/// relative to `path`, each renamed to its relative key.
pub open spec fn is_stripped_subtree(
    m: Map<Seq<char>, Property>,
    path: Seq<char>,
    sub: Map<Seq<char>, Property>,
) -> bool {
    &&& forall|k: Seq<char>|
        #![trigger sub.contains_key(k)]
        #![trigger m.contains_key(child_prefix(path) + k)]
        sub.contains_key(k) <==> m.contains_key(child_prefix(path) + k)
    &&& forall|k: Seq<char>| #[trigger]
        sub.contains_key(k) ==> is_renamed(sub[k], m[child_prefix(path) + k], k)
}

impl Config {
    /// The properties whose keys start with `children`, in ascending key
    /// order, each kept as it is or with that text removed from its key.
    fn collect_children(&self, children: &str, path: Ghost<Seq<char>>, strip: bool) -> (r: Vec<
        Property,
    >)
        requires
            children@ == child_prefix(path@),
        ensures
            entries_well_formed(r@),
            !strip ==> forall|k: Seq<char>|
                #![trigger property_map(r@).contains_key(k)]
                #![trigger self@.contains_key(k)]
                property_map(r@).contains_key(k) <==> self@.contains_key(k)
                    && children@.is_prefix_of(k),
            strip ==> forall|k: Seq<char>|
                #![trigger property_map(r@).contains_key(k)]
                #![trigger self@.contains_key(children@ + k)]
                property_map(r@).contains_key(k) <==> self@.contains_key(children@ + k),
            forall|k: Seq<char>| #[trigger]
                property_map(r@).contains_key(k) ==> if strip {
                    is_renamed(property_map(r@)[k], self@[children@ + k], k)
                } else {
                    property_map(r@)[k] == self@[k]
                },
    {
        proof {
            use_type_invariant(self);
        }
        let ghost s = self.properties@;
        let ghost cp = children@;
        let cut = chars_of(children).len();
        let mut r: Vec<Property> = Vec::new();
        let ghost mut idx: Seq<int> = Seq::empty();
        let mut i: usize = 0;
        while i < self.properties.len()
            invariant
                s == self.properties@,
                entries_well_formed(s),
                cp == children@,
                cp == child_prefix(path@),
                cut == cp.len(),
                i <= s.len(),
                entries_well_formed(r@),
                r@.len() == idx.len(),
                forall|m: int|
                    0 <= m < idx.len() ==> {
                        &&& 0 <= #[trigger] idx[m] < i
                        &&& cp.is_prefix_of(s[idx[m]].spec_name())
                        &&& kept_as(r@[m], s[idx[m]], strip, cut as int)
                    },
                forall|a: int, b: int| 0 <= a < b < idx.len() ==> #[trigger] idx[a] < #[trigger] idx[b],
                forall|j: int|
                    0 <= j < i && cp.is_prefix_of((#[trigger] s[j]).spec_name()) ==> exists|m: int|
                        0 <= m < idx.len() && idx[m] == j,
            decreases s.len() - i,
        {
            let ghost old_idx = idx;
            let ghost old_r = r@;
            let name = self.properties[i].name();
            if str_starts_with(name, children) {
                let q = if strip {
                    let v = chars_of(name);
                    let short = string_from_chars(&v, cut, v.len());
                    self.properties[i].renamed(short)
                } else {
                    self.properties[i].duplicate()
                };
                proof {
                    let here = s[i as int].spec_name();
                    assert(here =~= cp + here.skip(cut as int));
                    if strip {
                        lemma_child_key(path@, here);
                    }
                    assert forall|m: int| 0 <= m < old_r.len() implies seq_lt(
                        (#[trigger] old_r[m]).spec_name(),
                        q.spec_name(),
                    ) by {
                        let there = s[idx[m]].spec_name();
                        assert(seq_lt(there, here));
                        if strip {
                            assert(there =~= cp + there.skip(cut as int));
                            lemma_seq_lt_common_prefix(cp, there.skip(cut as int), here.skip(cut as int));
                        }
                    }
                }
                r.push(q);
                proof {
                    idx = idx.push(i as int);
                    assert forall|a: int, b: int| 0 <= a < b < r@.len() implies seq_lt(
                        #[trigger] r@[a].spec_name(),
                        #[trigger] r@[b].spec_name(),
                    ) by {
                        if b < old_r.len() {
                            assert(r@[a] == old_r[a]);
                            assert(r@[b] == old_r[b]);
                        } else {
                            assert(r@[a] == old_r[a]);
                        }
                    }
                    assert forall|m: int| 0 <= m < r@.len() implies is_canonical_key(
                        #[trigger] r@[m].spec_name(),
                    ) by {
                        if m < old_r.len() {
                            assert(r@[m] == old_r[m]);
                        }
                    }
                }
            }
            proof {
                assert forall|j: int|
                    0 <= j < i + 1 && cp.is_prefix_of((#[trigger] s[j]).spec_name()) implies exists|
                    m: int,
                | 0 <= m < idx.len() && idx[m] == j by {
                    if j < i {
                        let m = choose|m: int| 0 <= m < old_idx.len() && old_idx[m] == j;
                        assert(idx[m] == j);
                    } else {
                        assert(idx[idx.len() - 1] == j);
                    }
                }
            }
            i = i + 1;
        }
        proof {
            let c = property_map(r@);
            assert forall|k: Seq<char>| #[trigger] c.contains_key(k) implies {
                &&& (if strip {
                    self@.contains_key(cp + k)
                } else {
                    self@.contains_key(k) && cp.is_prefix_of(k)
                })
                &&& (if strip {
                    is_renamed(c[k], self@[cp + k], k)
                } else {
                    c[k] == self@[k]
                })
            } by {
                let m = index_of_name(r@, k);
                lemma_map_at(r@, m);
                let j = idx[m];
                lemma_map_at(s, j);
                if strip {
                    assert(s[j].spec_name() =~= cp + k);
                }
            }
            if strip {
                assert forall|k: Seq<char>| #[trigger] self@.contains_key(cp + k) implies c.contains_key(
                    k,
                ) by {
                    let j = index_of_name(s, cp + k);
                    assert(cp.is_prefix_of(cp + k));
                    let m = choose|m: int| 0 <= m < idx.len() && idx[m] == j;
                    assert(r@[m].spec_name() =~= k);
                    assert(has_name(r@, k));
                }
            } else {
                assert forall|k: Seq<char>| #[trigger]
                    self@.contains_key(k) && cp.is_prefix_of(k) implies c.contains_key(k) by {
                    let j = index_of_name(s, k);
                    let m = choose|m: int| 0 <= m < idx.len() && idx[m] == j;
                    assert(r@[m].spec_name() == k);
                    assert(has_name(r@, k));
                }
            }
        }
        r
    }

    /// Extracts the properties below `prefix` into a new configuration with
    /// the same description and read policy.
    ///
    /// For the empty prefix every property is copied. Otherwise only keys
    /// that extend `prefix` by further segments are taken (an exact key
    /// equal to `prefix` is a value, not part of the subtree); with
    /// `strip_prefix` they lose `prefix` and the following dot, and their
    /// properties are renamed to match.
    ///
    /// Fails with `InvalidPath` when `prefix` is not canonical.
    pub fn subconfig(&self, prefix: &str, strip_prefix: bool) -> (r: Result<Config, ConfigError>)
        ensures
            r is Err <==> !is_canonical_path(prefix@),
            r matches Err(e) ==> e.is_invalid_path(prefix@),
            r matches Ok(c) ==> {
                &&& c.same_settings(*self)
                &&& prefix@.len() == 0 ==> c@ == self@
                &&& prefix@.len() > 0 && !strip_prefix ==> is_kept_subtree(self@, prefix@, c@)
                &&& prefix@.len() > 0 && strip_prefix ==> is_stripped_subtree(self@, prefix@, c@)
            },
    {
        ensure_config_path(prefix)?;
        proof {
            use_type_invariant(self);
        }
        let description = match &self.description {
            Some(d) => Some(d.clone()),
            None => None,
        };
        let default_read_policy = self.default_read_policy.copied();
        if prefix.is_empty() {
            let ghost s = self.properties@;
            let mut properties: Vec<Property> = Vec::new();
            let mut i: usize = 0;
            while i < self.properties.len()
                invariant
                    s == self.properties@,
                    i <= s.len(),
                    properties@ == s.take(i as int),
                decreases s.len() - i,
            {
                properties.push(self.properties[i].duplicate());
                i = i + 1;
                proof {
                    assert(properties@ =~= s.take(i as int));
                }
            }
            proof {
                assert(properties@ =~= s);
            }
            return Ok(Config { description, properties, default_read_policy });
        }
        let mut children = owned(prefix);
        push_char(&mut children, '.');
        let properties = self.collect_children(children.as_str(), Ghost(prefix@), strip_prefix);
        Ok(Config { description, properties, default_read_policy })
    }
}

/// Text of the error that rejects a non-canonical key.
pub open spec fn invalid_key_message(key: Seq<char>) -> Seq<char> {
    match key_violation(key) {
        Some(v) => "Invalid configuration key '"@ + key + "': "@ + v.spec_message(),
        None => Seq::empty(),
    }
}

/// Text of the error that rejects a persisted entry whose key differs from
/// the name of its property.
pub open spec fn key_mismatch_message(key: Seq<char>, name: Seq<char>) -> Seq<char> {
    "configuration map key '"@ + key + "' does not match property name '"@ + name + "'"@
}

/// The keys of `e` are pairwise distinct.
pub open spec fn distinct_keys(e: Seq<(String, Property)>) -> bool {
    forall|i: int, j: int| 0 <= i < e.len() && 0 <= j < e.len() && i != j ==> (#[trigger] e[i]).0@
        != (#[trigger] e[j]).0@
}

/// Entry `i` has the least non-canonical key of `e`.
pub open spec fn is_least_invalid_entry(e: Seq<(String, Property)>, i: int) -> bool {
    &&& 0 <= i < e.len()
    &&& !is_canonical_key(e[i].0@)
    &&& forall|j: int|
        0 <= j < e.len() && !is_canonical_key((#[trigger] e[j]).0@) ==> !seq_lt(e[j].0@, e[i].0@)
}

/// Entry `i` has the least key of `e` that differs from its property's name.
pub open spec fn is_least_mismatched_entry(e: Seq<(String, Property)>, i: int) -> bool {
    &&& 0 <= i < e.len()
    &&& e[i].0@ != e[i].1.spec_name()
    &&& forall|j: int|
        0 <= j < e.len() && (#[trigger] e[j]).0@ != e[j].1.spec_name() ==> !seq_lt(e[j].0@, e[i].0@)
}

/// The outcome of building a configuration from a description and the
/// entries of a persisted key-to-property map: the least non-canonical key
/// is reported first, then the least key that differs from its property's
/// name; otherwise the configuration holds exactly the entries, with the
/// given description and the default read policy.
pub open spec fn wire_parts_outcome(
    description: Option<Seq<char>>,
    e: Seq<(String, Property)>,
    r: Result<Config, String>,
) -> bool {
    &&& (exists|i: int| 0 <= i < e.len() && !is_canonical_key((#[trigger] e[i]).0@)) ==> (r matches Err(
        m,
    ) && exists|i: int| is_least_invalid_entry(e, i) && m@ == invalid_key_message((#[trigger] e[i]).0@))
    &&& (forall|i: int| 0 <= i < e.len() ==> is_canonical_key((#[trigger] e[i]).0@)) && (exists|i: int|
        0 <= i < e.len() && (#[trigger] e[i]).0@ != e[i].1.spec_name()) ==> (r matches Err(m)
        && exists|i: int|
        is_least_mismatched_entry(e, i) && m@ == key_mismatch_message(
            (#[trigger] e[i]).0@,
            e[i].1.spec_name(),
        ))
    &&& (r is Ok <==> forall|i: int|
        0 <= i < e.len() ==> is_canonical_key((#[trigger] e[i]).0@) && e[i].0@ == e[i].1.spec_name())
    &&& r matches Ok(c) ==> {
        &&& c.spec_description() == description
        &&& c.spec_read_policy().is_default()
        &&& forall|i: int|
            0 <= i < e.len() ==> c@.contains_key((#[trigger] e[i]).0@) && c@[e[i].0@] == e[i].1
        &&& forall|k: Seq<char>| #[trigger]
            c@.contains_key(k) ==> exists|i: int| 0 <= i < e.len() && (#[trigger] e[i]).0@ == k
    }
}

/// Builds the text of the error that rejects a non-canonical key.
fn invalid_key_text(key: &str, violation: ConfigPathViolation) -> (r: String)
    requires
        key_violation(key@) == Some(violation),
    ensures
        r@ == invalid_key_message(key@),
{
    let a = concat("Invalid configuration key '", key);
    let b = concat(a.as_str(), "': ");
    concat(b.as_str(), violation.message())
}

/// Builds the text of the error that rejects a persisted entry whose key
/// differs from the name of its property.
fn key_mismatch_text(key: &str, name: &str) -> (r: String)
    ensures
        r@ == key_mismatch_message(key@, name@),
{
    let a = concat("configuration map key '", key);
    let b = concat(a.as_str(), "' does not match property name '");
    let c = concat(b.as_str(), name);
    concat(c.as_str(), "'")
}

impl Config {
    /// Builds a configuration from persisted parts: a description and the
    /// entries of a key-to-property map.
    ///
    /// Fails, naming the least offending key, when a key is not canonical;
    /// failing that, when a key differs from its property's name. The read
    /// policy of the result is the default one.
    pub fn from_wire_parts(description: Option<String>, entries: Vec<(String, Property)>) -> (r:
        Result<Config, String>)
        requires
            distinct_keys(entries@),
        ensures
            wire_parts_outcome(
                match description {
                    Some(d) => Some(d@),
                    None => None::<Seq<char>>,
                },
                entries@,
                r,
            ),
    {
        let ghost e = entries@;
        let n = entries.len();
        let mut bad: Option<usize> = None;
        let mut i: usize = 0;
        while i < n
            invariant
                e == entries@,
                n == e.len(),
                i <= n,
                bad matches Some(b) ==> {
                    &&& b < i
                    &&& !is_canonical_key(e[b as int].0@)
                    &&& forall|j: int|
                        0 <= j < i && !is_canonical_key((#[trigger] e[j]).0@) ==> !seq_lt(
                            e[j].0@,
                            e[b as int].0@,
                        )
                },
                bad is None ==> forall|j: int| 0 <= j < i ==> is_canonical_key((#[trigger] e[j]).0@),
            decreases n - i,
        {
            let key = entries[i].0.as_str();
            if validate_config_key(key).is_err() {
                match bad {
                    None => {
                        proof {
                            crate::text::lemma_seq_lt_irreflexive(key@);
                        }
                        bad = Some(i);
                    },
                    Some(b) => {
                        if str_lt(key, entries[b].0.as_str()) {
                            proof {
                                crate::text::lemma_seq_lt_irreflexive(key@);
                                assert forall|j: int|
                                    0 <= j < i + 1 && !is_canonical_key((#[trigger] e[j]).0@) implies !seq_lt(
                                    e[j].0@,
                                    key@,
                                ) by {
                                    if j < i && seq_lt(e[j].0@, key@) {
                                        lemma_seq_lt_transitive(e[j].0@, key@, e[b as int].0@);
                                    }
                                }
                            }
                            bad = Some(i);
                        }
                    },
                }
            }
            i = i + 1;
        }
        if let Some(b) = bad {
            let key = entries[b].0.as_str();
            let violation = match validate_config_key(key) {
                Err(v) => v,
                Ok(()) => ConfigPathViolation::Empty,
            };
            return Err(invalid_key_text(key, violation));
        }
        let mut bad: Option<usize> = None;
        let mut i: usize = 0;
        while i < n
            invariant
                e == entries@,
                n == e.len(),
                i <= n,
                forall|j: int| 0 <= j < n ==> is_canonical_key((#[trigger] e[j]).0@),
                bad matches Some(b) ==> {
                    &&& b < i
                    &&& e[b as int].0@ != e[b as int].1.spec_name()
                    &&& forall|j: int|
                        0 <= j < i && (#[trigger] e[j]).0@ != e[j].1.spec_name() ==> !seq_lt(
                            e[j].0@,
                            e[b as int].0@,
                        )
                },
                bad is None ==> forall|j: int|
                    0 <= j < i ==> (#[trigger] e[j]).0@ == e[j].1.spec_name(),
            decreases n - i,
        {
            let key = entries[i].0.as_str();
            if !str_eq(key, entries[i].1.name()) {
                match bad {
                    None => {
                        proof {
                            crate::text::lemma_seq_lt_irreflexive(key@);
                        }
                        bad = Some(i);
                    },
                    Some(b) => {
                        if str_lt(key, entries[b].0.as_str()) {
                            proof {
                                crate::text::lemma_seq_lt_irreflexive(key@);
                                assert forall|j: int|
                                    0 <= j < i + 1 && (#[trigger] e[j]).0@ != e[j].1.spec_name() implies !seq_lt(
                                    e[j].0@,
                                    key@,
                                ) by {
                                    if j < i && seq_lt(e[j].0@, key@) {
                                        lemma_seq_lt_transitive(e[j].0@, key@, e[b as int].0@);
                                    }
                                }
                            }
                            bad = Some(i);
                        }
                    },
                }
            }
            i = i + 1;
        }
        if let Some(b) = bad {
            return Err(key_mismatch_text(entries[b].0.as_str(), entries[b].1.name()));
        }
        let mut config = Config::new();
        let mut i: usize = 0;
        while i < n
            invariant
                e == entries@,
                n == e.len(),
                i <= n,
                distinct_keys(e),
                forall|j: int|
                    0 <= j < n ==> is_canonical_key((#[trigger] e[j]).0@) && e[j].0@
                        == e[j].1.spec_name(),
                config.spec_description() is None,
                config.spec_read_policy().is_default(),
                forall|j: int|
                    0 <= j < i ==> config@.contains_key((#[trigger] e[j]).0@) && config@[e[j].0@]
                        == e[j].1,
                forall|k: Seq<char>| #[trigger]
                    config@.contains_key(k) ==> exists|j: int| 0 <= j < i && (#[trigger] e[j]).0@ == k,
            decreases n - i,
        {
            let p = entries[i].1.duplicate();
            let ghost before = config@;
            config.put(p);
            proof {
                assert forall|j: int| 0 <= j < i + 1 implies config@.contains_key(
                    (#[trigger] e[j]).0@,
                ) && config@[e[j].0@] == e[j].1 by {
                    if j < i {
                        assert(e[j].0@ != e[i as int].0@);
                    }
                }
                assert forall|k: Seq<char>| #[trigger] config@.contains_key(k) implies exists|j: int|
                    0 <= j < i + 1 && (#[trigger] e[j]).0@ == k by {
                    if k != e[i as int].0@ {
                        assert(before.contains_key(k));
                    } else {
                        assert(e[i as int].0@ == k);
                    }
                }
            }
            i = i + 1;
        }
        config.set_description(description);
        Ok(config)
    }
}

impl Clone for Config {
    /// A copy with the same properties, description and read policy.
    fn clone(&self) -> (r: Self)
        ensures
            r@ == self@,
            r.same_settings(*self),
    {
        proof {
            use_type_invariant(self);
        }
        let ghost s = self.properties@;
        let mut properties: Vec<Property> = Vec::new();
        let mut i: usize = 0;
        while i < self.properties.len()
            invariant
                s == self.properties@,
                i <= s.len(),
                properties@ == s.take(i as int),
            decreases s.len() - i,
        {
            properties.push(self.properties[i].duplicate());
            i = i + 1;
            proof {
                assert(properties@ =~= s.take(i as int));
            }
        }
        proof {
            assert(properties@ =~= s);
        }
        let description = match &self.description {
            Some(d) => Some(d.clone()),
            None => None,
        };
        Config { description, properties, default_read_policy: self.default_read_policy.copied() }
    }
}

/// Builder for [`Config`].
#[derive(Debug)]
pub struct ConfigBuilder {
    /// Description of the configuration to build.
    pub description: Option<String>,
    /// Default read policy of the configuration to build.
    pub default_read_policy: ReadPolicy,
}

impl ConfigBuilder {
    /// Creates a builder for an empty configuration with no description and
    /// the default read policy.
    pub fn new() -> (b: Self)
        ensures
            b.description is None,
            b.default_read_policy.is_default(),
    {
        ConfigBuilder { description: None, default_read_policy: ReadPolicy::default() }
    }

    /// Sets the configuration description.
    pub fn description(self, description: &str) -> (b: Self)
        ensures
            b.description matches Some(d) && d@ == description@,
            b.default_read_policy == self.default_read_policy,
    {
        ConfigBuilder { description: Some(owned(description)), ..self }
    }

    /// Sets the default read policy.
    pub fn default_read_policy(self, policy: ReadPolicy) -> (b: Self)
        ensures
            b.default_read_policy == policy,
            b.description == self.description,
    {
        ConfigBuilder { default_read_policy: policy, ..self }
    }

    /// Builds the empty configuration.
    pub fn build(self) -> (c: Config)
        ensures
            c@ == Map::<Seq<char>, Property>::empty(),
            c.spec_description() == (match self.description {
                Some(d) => Some(d@),
                None => None::<Seq<char>>,
            }),
            c.spec_read_policy() == self.default_read_policy,
    {
        let c = Config {
            description: self.description,
            properties: Vec::new(),
            default_read_policy: self.default_read_policy,
        };
        proof {
            lemma_map_empty(c.properties@);
        }
        c
    }
}

impl Default for ConfigBuilder {
    /// A builder for an empty configuration with the default read policy.
    fn default() -> (b: Self)
        ensures
            b.description is None,
            b.default_read_policy.is_default(),
    {
        ConfigBuilder::new()
    }
}

impl Default for Config {
    /// An empty configuration with the default read policy.
    fn default() -> (r: Self)
        ensures
            r@ == Map::<Seq<char>, Property>::empty(),
            r.spec_description() is None,
            r.spec_read_policy().is_default(),
    {
        Config::new()
    }
}

} // verus!
