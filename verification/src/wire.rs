//! Rules of the persisted configuration wire format: its configuration
//! specific resource limits, and the selection and validation of its
//! versioned and legacy forms.

use vstd::prelude::*;

use crate::config::distinct_keys;
use crate::config::wire_parts_outcome;
use crate::config::Config;
use crate::property::Property;
use crate::text::concat;
use crate::text::decimal;
use crate::text::decimal_string;
use crate::text::owned;

verus! {

/// Resource categories specific to configuration wire envelopes.
#[derive(Debug, Clone, Copy, PartialEq, Eq, Structural, Hash)]
pub enum ConfigWireLimitKind {
    /// Number of persisted properties.
    Properties,
    /// UTF-8 bytes in one property key.
    PropertyKeyBytes,
}

/// Default maximum number of persisted properties.
pub const DEFAULT_MAX_PROPERTIES: u64 = 4096;

/// Default maximum UTF-8 bytes in one property key.
pub const DEFAULT_MAX_PROPERTY_KEY_BYTES: u64 = 256;

/// Default maximum length of a complete JSON input.
pub const DEFAULT_MAX_INPUT_BYTES: u64 = 1048576;

/// Default maximum length of a complete JSON output.
pub const DEFAULT_MAX_OUTPUT_BYTES: u64 = 1048576;

/// Default maximum nesting depth of a JSON value.
pub const DEFAULT_MAX_DEPTH: u64 = 64;

/// Default maximum number of JSON nodes.
pub const DEFAULT_MAX_NODES: u64 = 100000;

/// Default maximum items in one JSON sequence.
pub const DEFAULT_MAX_SEQUENCE_ITEMS: u64 = 4096;

/// Default maximum entries in one JSON map.
pub const DEFAULT_MAX_MAP_ENTRIES: u64 = 4096;

/// Default maximum bytes in one JSON string.
pub const DEFAULT_MAX_STRING_BYTES: u64 = 262144;

/// Default maximum bytes in the text of one JSON number.
pub const DEFAULT_MAX_NUMBER_BYTES: u64 = 4096;

/// Default maximum bytes in one JSON object key.
pub const DEFAULT_MAX_KEY_BYTES: u64 = 262144;

/// Default cumulative bytes of JSON keys, strings and numbers.
pub const DEFAULT_MAX_PAYLOAD_BYTES: u64 = 1048576;

/// The width in UTF-8 bytes of the encoding of `c`.
pub open spec fn utf8_width(c: char) -> nat {
    if (c as int) < 0x80 {
        1
    } else if (c as int) < 0x800 {
        2
    } else if (c as int) < 0x10000 {
        3
    } else {
        4
    }
}

/// The number of bytes in the UTF-8 encoding of `s`.
pub open spec fn utf8_len(s: Seq<char>) -> nat
    decreases s.len(),
{
    if s.len() == 0 {
        0
    } else {
        utf8_width(s[0]) + utf8_len(s.drop_first())
    }
}

/// The length of `s` in bytes.
///
/// Calls `str::len`, which std documents as the length in bytes of the
/// string's UTF-8 encoding; `char::len_utf8` documents the width of each
/// character as one to four bytes by code point range, which `utf8_width`
/// restates.
#[verifier::external_body]
pub(crate) fn byte_len(s: &str) -> (n: usize)
    ensures
        n == utf8_len(s@),
{
    s.len()
}

/// A configuration-specific wire limit that a document exceeds.
#[derive(Debug, Clone, Copy, PartialEq, Eq, Structural)]
pub struct ConfigWireLimitExceeded {
    /// The resource that exceeds its limit.
    pub kind: ConfigWireLimitKind,
    /// The observed amount.
    pub value: u64,
    /// The largest permitted amount.
    pub maximum: u64,
}

/// Limits specific to configuration wire documents: the number of
/// properties and the UTF-8 length of each key.
#[derive(Debug, Clone, Copy, PartialEq, Eq, Structural)]
pub struct ConfigWireLimits {
    max_properties: u64,
    max_property_key_bytes: u64,
}

/// Entry `i` is the first in `e` whose key is longer than `max` bytes.
pub open spec fn is_first_long_key(e: Seq<Seq<char>>, max: u64, i: int) -> bool {
    &&& 0 <= i < e.len()
    &&& utf8_len(e[i]) > max
    &&& forall|j: int| 0 <= j < i ==> utf8_len(#[trigger] e[j]) <= max
}

/// The outcome of checking `count` properties with the keys `keys`, in
/// order, against the limits.
pub open spec fn limit_outcome(
    max_properties: u64,
    max_key_bytes: u64,
    count: nat,
    keys: Seq<Seq<char>>,
    r: Result<(), ConfigWireLimitExceeded>,
) -> bool {
    if count > max_properties {
        r == Err::<(), ConfigWireLimitExceeded>(
            ConfigWireLimitExceeded {
                kind: ConfigWireLimitKind::Properties,
                value: count as u64,
                maximum: max_properties,
            },
        )
    } else if exists|i: int| 0 <= i < keys.len() && utf8_len(#[trigger] keys[i]) > max_key_bytes {
        exists|i: int|
            #![trigger keys[i]]
            is_first_long_key(keys, max_key_bytes, i) && r == Err::<(), ConfigWireLimitExceeded>(
                ConfigWireLimitExceeded {
                    kind: ConfigWireLimitKind::PropertyKeyBytes,
                    value: utf8_len(keys[i]) as u64,
                    maximum: max_key_bytes,
                },
            )
    } else {
        r is Ok
    }
}

impl ConfigWireLimits {
    /// The maximum number of persisted properties.
    pub closed spec fn spec_max_properties(&self) -> u64 {
        self.max_properties
    }

    /// The maximum UTF-8 bytes in one property key.
    pub closed spec fn spec_max_property_key_bytes(&self) -> u64 {
        self.max_property_key_bytes
    }

    /// The limits with `max_properties` properties and keys of at most
    /// `max_property_key_bytes` bytes.
    pub closed spec fn spec_from_parts(max_properties: u64, max_property_key_bytes: u64) -> Self {
        ConfigWireLimits { max_properties, max_property_key_bytes }
    }

    /// Limits are determined by their two bounds: rebuilding them from
    /// their bounds gives the same limits.
    pub proof fn law_limits_are_their_bounds(limits: Self)
        ensures
            limits == Self::spec_from_parts(
                limits.spec_max_properties(),
                limits.spec_max_property_key_bytes(),
            ),
    {
    }

    /// Creates a builder initialized with the default limits.
    pub fn builder() -> (b: ConfigWireLimitsBuilder)
        ensures
            b.max_properties == DEFAULT_MAX_PROPERTIES,
            b.max_property_key_bytes == DEFAULT_MAX_PROPERTY_KEY_BYTES,
    {
        ConfigWireLimitsBuilder::new()
    }

    /// Creates a builder initialized from existing limits.
    pub fn builder_from(limits: &Self) -> (b: ConfigWireLimitsBuilder)
        ensures
            b.max_properties == limits.spec_max_properties(),
            b.max_property_key_bytes == limits.spec_max_property_key_bytes(),
    {
        ConfigWireLimitsBuilder {
            max_properties: limits.max_properties,
            max_property_key_bytes: limits.max_property_key_bytes,
        }
    }

    /// Returns the maximum number of persisted properties.
    pub fn max_properties(&self) -> (n: u64)
        ensures
            n == self.spec_max_properties(),
    {
        self.max_properties
    }

    /// Returns the maximum UTF-8 bytes in one property key.
    pub fn max_property_key_bytes(&self) -> (n: u64)
        ensures
            n == self.spec_max_property_key_bytes(),
    {
        self.max_property_key_bytes
    }

    /// Checks a property count, then each key in order, against the limits.
    fn check_keys(&self, count: usize, keys: &Vec<String>) -> (r: Result<
        (),
        ConfigWireLimitExceeded,
    >)
        ensures
            limit_outcome(
                self.spec_max_properties(),
                self.spec_max_property_key_bytes(),
                count as nat,
                keys@.map_values(|k: String| k@),
                r,
            ),
    {
        let ghost ks = keys@.map_values(|k: String| k@);
        let n = count as u64;
        if n > self.max_properties {
            return Err(
                ConfigWireLimitExceeded {
                    kind: ConfigWireLimitKind::Properties,
                    value: n,
                    maximum: self.max_properties,
                },
            );
        }
        let mut i: usize = 0;
        while i < keys.len()
            invariant
                ks == keys@.map_values(|k: String| k@),
                count <= self.max_properties,
                i <= keys@.len(),
                forall|j: int| 0 <= j < i ==> utf8_len(#[trigger] ks[j]) <= self.max_property_key_bytes,
            decreases keys.len() - i,
        {
            let bytes = byte_len(keys[i].as_str()) as u64;
            if bytes > self.max_property_key_bytes {
                let r = Err(
                    ConfigWireLimitExceeded {
                        kind: ConfigWireLimitKind::PropertyKeyBytes,
                        value: bytes,
                        maximum: self.max_property_key_bytes,
                    },
                );
                proof {
                    assert(ks[i as int] == keys@[i as int]@);
                    assert(bytes == utf8_len(ks[i as int]));
                    assert(is_first_long_key(ks, self.max_property_key_bytes, i as int));
                    assert(r == Err::<(), ConfigWireLimitExceeded>(
                        ConfigWireLimitExceeded {
                            kind: ConfigWireLimitKind::PropertyKeyBytes,
                            value: utf8_len(ks[i as int]) as u64,
                            maximum: self.max_property_key_bytes,
                        },
                    ));
                }
                return r;
            }
            i = i + 1;
        }
        Ok(())
    }

    /// Checks the property count of `config`, then its keys in ascending
    /// order, against the limits.
    pub fn check_config(&self, config: &Config) -> (r: Result<(), ConfigWireLimitExceeded>)
        ensures
            exists|keys: Seq<Seq<char>>|
                {
                    &&& keys.len() == config@.dom().len()
                    &&& forall|i: int|
                        0 <= i < keys.len() ==> config@.contains_key(#[trigger] keys[i])
                    &&& forall|i: int, j: int|
                        0 <= i < j < keys.len() ==> crate::text::seq_lt(
                            #[trigger] keys[i],
                            #[trigger] keys[j],
                        )
                    &&& forall|k: Seq<char>| #[trigger]
                        config@.contains_key(k) ==> exists|i: int| 0 <= i < keys.len() && keys[i] == k
                    &&& limit_outcome(
                        self.spec_max_properties(),
                        self.spec_max_property_key_bytes(),
                        config@.dom().len(),
                        keys,
                        r,
                    )
                },
    {
        let keys = config.keys();
        let r = self.check_keys(config.len(), &keys);
        proof {
            let ks = keys@.map_values(|k: String| k@);
            assert forall|i: int| 0 <= i < ks.len() implies config@.contains_key(#[trigger] ks[i]) by {
                assert(config@.contains_key(keys@[i]@));
            }
            assert forall|i: int, j: int| 0 <= i < j < ks.len() implies crate::text::seq_lt(
                #[trigger] ks[i],
                #[trigger] ks[j],
            ) by {
                assert(crate::text::seq_lt(keys@[i]@, keys@[j]@));
            }
            assert forall|k: Seq<char>| #[trigger] config@.contains_key(k) implies exists|i: int|
                0 <= i < ks.len() && ks[i] == k by {
                let i = choose|i: int| 0 <= i < keys@.len() && keys@[i]@ == k;
                assert(ks[i] == k);
            }
        }
        r
    }

    /// Checks the number of persisted entries, then their keys in order,
    /// against the limits.
    pub fn check_entries(&self, entries: &Vec<(String, Property)>) -> (r: Result<
        (),
        ConfigWireLimitExceeded,
    >)
        ensures
            limit_outcome(
                self.spec_max_properties(),
                self.spec_max_property_key_bytes(),
                entries@.len(),
                entries@.map_values(|e: (String, Property)| e.0@),
                r,
            ),
    {
        let mut keys: Vec<String> = Vec::new();
        let mut i: usize = 0;
        while i < entries.len()
            invariant
                i <= entries@.len(),
                keys@.len() == i,
                forall|j: int| 0 <= j < i ==> (#[trigger] keys@[j])@ == entries@[j].0@,
            decreases entries.len() - i,
        {
            keys.push(owned(entries[i].0.as_str()));
            i = i + 1;
        }
        let r = self.check_keys(entries.len(), &keys);
        proof {
            assert(keys@.map_values(|k: String| k@) =~= entries@.map_values(
                |e: (String, Property)| e.0@,
            ));
        }
        r
    }
}

impl Default for ConfigWireLimits {
    /// The default limits.
    fn default() -> (r: Self)
        ensures
            r.spec_max_properties() == DEFAULT_MAX_PROPERTIES,
            r.spec_max_property_key_bytes() == DEFAULT_MAX_PROPERTY_KEY_BYTES,
    {
        ConfigWireLimits::builder().build()
    }
}

/// Builder for [`ConfigWireLimits`].
#[derive(Debug, Clone, Copy, PartialEq, Eq, Structural)]
pub struct ConfigWireLimitsBuilder {
    /// Maximum number of persisted properties.
    pub max_properties: u64,
    /// Maximum UTF-8 bytes in one property key.
    pub max_property_key_bytes: u64,
}

impl ConfigWireLimitsBuilder {
    /// Creates a builder initialized with the default limits.
    pub fn new() -> (b: Self)
        ensures
            b.max_properties == DEFAULT_MAX_PROPERTIES,
            b.max_property_key_bytes == DEFAULT_MAX_PROPERTY_KEY_BYTES,
    {
        ConfigWireLimitsBuilder {
            max_properties: DEFAULT_MAX_PROPERTIES,
            max_property_key_bytes: DEFAULT_MAX_PROPERTY_KEY_BYTES,
        }
    }

    /// Sets the maximum number of persisted properties.
    pub fn max_properties(self, maximum: u64) -> (b: Self)
        ensures
            b.max_properties == maximum,
            b.max_property_key_bytes == self.max_property_key_bytes,
    {
        ConfigWireLimitsBuilder { max_properties: maximum, ..self }
    }

    /// Sets the maximum UTF-8 bytes in one property key.
    pub fn max_property_key_bytes(self, maximum: u64) -> (b: Self)
        ensures
            b.max_property_key_bytes == maximum,
            b.max_properties == self.max_properties,
    {
        ConfigWireLimitsBuilder { max_property_key_bytes: maximum, ..self }
    }

    /// Builds the limits.
    pub fn build(self) -> (r: ConfigWireLimits)
        ensures
            r.spec_max_properties() == self.max_properties,
            r.spec_max_property_key_bytes() == self.max_property_key_bytes,
            r == ConfigWireLimits::spec_from_parts(self.max_properties, self.max_property_key_bytes),
    {
        ConfigWireLimits {
            max_properties: self.max_properties,
            max_property_key_bytes: self.max_property_key_bytes,
        }
    }
}

impl Default for ConfigWireLimitsBuilder {
    /// A builder initialized with the default limits.
    fn default() -> (b: Self)
        ensures
            b.max_properties == DEFAULT_MAX_PROPERTIES,
            b.max_property_key_bytes == DEFAULT_MAX_PROPERTY_KEY_BYTES,
    {
        ConfigWireLimitsBuilder::new()
    }
}

/// Text of the error that rejects runtime read options in a versioned
/// document.
pub open spec fn versioned_read_options_message() -> Seq<char> {
    "read_options is only accepted in legacy unversioned config wire"@
}

/// Text of the error that rejects an unsupported format version.
pub open spec fn unsupported_version_message(version: u8) -> Seq<char> {
    "unsupported config wire version "@ + decimal(version as nat) + "; expected 1"@
}

/// An accepted persisted configuration document.
pub enum ConfigWire {
    /// The explicit, stable versioned format.
    V1 {
        /// Format revision.
        version: u8,
        /// Optional configuration description.
        description: Option<String>,
        /// Persisted key-to-property entries.
        properties: Vec<(String, Property)>,
    },
    /// The unversioned format written before the versioned one.
    Legacy {
        /// Optional configuration description.
        description: Option<String>,
        /// Persisted key-to-property entries.
        properties: Vec<(String, Property)>,
    },
}

impl ConfigWire {
    /// Selects the versioned or the legacy form from the decoded fields: a
    /// document with a version is versioned, and may not carry runtime read
    /// options; one without is legacy, whose read options are ignored.
    pub fn from_fields(
        version: Option<u8>,
        description: Option<String>,
        properties: Vec<(String, Property)>,
        has_read_options: bool,
    ) -> (r: Result<ConfigWire, String>)
        ensures
            version is Some && has_read_options ==> (r matches Err(m) && m@
                == versioned_read_options_message()),
            version matches Some(v) ==> (!has_read_options ==> r == Ok::<ConfigWire, String>(
                ConfigWire::V1 { version: v, description, properties },
            )),
            version is None ==> r == Ok::<ConfigWire, String>(
                ConfigWire::Legacy { description, properties },
            ),
    {
        match version {
            Some(v) => {
                if has_read_options {
                    return Err(
                        owned("read_options is only accepted in legacy unversioned config wire"),
                    );
                }
                Ok(ConfigWire::V1 { version: v, description, properties })
            },
            None => Ok(ConfigWire::Legacy { description, properties }),
        }
    }

    /// The persisted entries of either form.
    pub open spec fn spec_properties(self) -> Seq<(String, Property)> {
        match self {
            ConfigWire::V1 { properties, .. } => properties@,
            ConfigWire::Legacy { properties, .. } => properties@,
        }
    }

    /// The description of either form.
    pub open spec fn spec_description(self) -> Option<Seq<char>> {
        match self {
            ConfigWire::V1 { description, .. } => match description {
                Some(d) => Some(d@),
                None => None,
            },
            ConfigWire::Legacy { description, .. } => match description {
                Some(d) => Some(d@),
                None => None,
            },
        }
    }

    /// The description of a document is the one it carries, in either form.
    pub proof fn law_documents_carry_their_description(
        version: u8,
        description: Option<String>,
        properties: Vec<(String, Property)>,
    )
        ensures
            (ConfigWire::V1 { version, description, properties }).spec_description() == match description {
                Some(d) => Some(d@),
                None => None,
            },
            (ConfigWire::Legacy { description, properties }).spec_description() == match description {
                Some(d) => Some(d@),
                None => None,
            },
    {
    }

    /// Builds the configuration a document describes: a versioned document
    /// must have version 1; either form then goes through
    /// [`Config::from_wire_parts`].
    pub fn into_config(self) -> (r: Result<Config, String>)
        requires
            distinct_keys(self.spec_properties()),
        ensures
            self matches ConfigWire::V1 { version, .. } ==> (version != 1 ==> (r matches Err(m) && m@
                == unsupported_version_message(version))),
            !(self matches ConfigWire::V1 { version, .. } && version != 1) ==> wire_parts_outcome(
                self.spec_description(),
                self.spec_properties(),
                r,
            ),
            self matches ConfigWire::V1 { description, .. } ==> (r matches Ok(c) ==> c.spec_description()
                == match description {
                Some(d) => Some(d@),
                None => None,
            }),
            self matches ConfigWire::Legacy { description, .. } ==> (r matches Ok(c)
                ==> c.spec_description() == match description {
                Some(d) => Some(d@),
                None => None,
            }),            self matches ConfigWire::V1 { properties, .. } ==> (r matches Ok(c) ==> (forall|i: int|
                0 <= i < properties@.len() ==> c@.contains_key((#[trigger] properties@[i]).0@)
                    && c@[properties@[i].0@] == properties@[i].1) && (forall|k: Seq<char>| #[trigger]
                c@.contains_key(k) ==> exists|i: int|
                    0 <= i < properties@.len() && (#[trigger] properties@[i]).0@ == k)),
            self matches ConfigWire::Legacy { properties, .. } ==> (r matches Ok(c) ==> (forall|i: int|
                0 <= i < properties@.len() ==> c@.contains_key((#[trigger] properties@[i]).0@)
                    && c@[properties@[i].0@] == properties@[i].1) && (forall|k: Seq<char>| #[trigger]
                c@.contains_key(k) ==> exists|i: int|
                    0 <= i < properties@.len() && (#[trigger] properties@[i]).0@ == k)),
    {
        match self {
            ConfigWire::V1 { version, description, properties } => {
                if version != 1 {
                    let a = concat("unsupported config wire version ", decimal_string(version as u64).as_str());
                    return Err(concat(a.as_str(), "; expected 1"));
                }
                Config::from_wire_parts(description, properties)
            },
            ConfigWire::Legacy { description, properties } => {
                Config::from_wire_parts(description, properties)
            },
        }
    }
}

} // verus!
