//! Read policies: conversion behaviour and the resource bounds of variable
//! substitution.

use vstd::prelude::*;

use qubit_datatype::BlankStringPolicy;
use qubit_datatype::BooleanConversionPolicy;
use qubit_datatype::CollectionConversionPolicy;
use qubit_datatype::ConversionPolicy;
use qubit_datatype::DurationConversionPolicy;
use qubit_datatype::EmptyItemPolicy;
use qubit_datatype::NumericConversionPolicy;
use qubit_datatype::StringConversionPolicy;

verus! {

/// Default maximum recursion depth when resolving `${...}` references.
pub const DEFAULT_MAX_SUBSTITUTION_DEPTH: usize = 64;

/// Default maximum number of `${...}` placeholder resolutions in one read.
pub const DEFAULT_MAX_SUBSTITUTION_EXPANSIONS: usize = 4096;

/// Default maximum UTF-8 byte length of one expanded configuration value.
pub const DEFAULT_MAX_SUBSTITUTION_OUTPUT_BYTES: usize = 1048576;

/// The conversion policy of `qubit-datatype`.
#[verifier::external_type_specification]
#[verifier::external_body]
pub struct ExConversionPolicy(ConversionPolicy);

/// How blank strings are treated by conversions.
#[verifier::external_type_specification]
#[verifier::external_body]
pub struct ExBlankStringPolicy(BlankStringPolicy);

/// How empty collection items are treated by conversions.
#[verifier::external_type_specification]
#[verifier::external_body]
pub struct ExEmptyItemPolicy(EmptyItemPolicy);

/// String conversion settings.
#[verifier::external_type_specification]
#[verifier::external_body]
pub struct ExStringConversionPolicy(StringConversionPolicy);

/// Boolean conversion settings.
#[verifier::external_type_specification]
#[verifier::external_body]
pub struct ExBooleanConversionPolicy(BooleanConversionPolicy);

/// Collection conversion settings.
#[verifier::external_type_specification]
#[verifier::external_body]
pub struct ExCollectionConversionPolicy(CollectionConversionPolicy);

/// Duration conversion settings.
#[verifier::external_type_specification]
#[verifier::external_body]
pub struct ExDurationConversionPolicy(DurationConversionPolicy);

/// Numeric conversion settings.
#[verifier::external_type_specification]
#[verifier::external_body]
pub struct ExNumericConversionPolicy(NumericConversionPolicy);

/// The derived `Clone` of `ConversionPolicy` copies every field, so the copy
/// equals the value it was made from.
pub assume_specification[ <ConversionPolicy as Clone>::clone ](policy: &ConversionPolicy) -> (copy:
    ConversionPolicy)
    ensures
        copy == *policy,
;

/// Whether `policy` trims surrounding whitespace from strings before
/// converting them (`policy.string().trim()`).
pub uninterp spec fn trims_strings(policy: ConversionPolicy) -> bool;

/// Whether `policy` treats a blank string as a missing value
/// (`policy.string().blank_string_policy()` is `TreatAsMissing`).
pub uninterp spec fn blank_strings_are_missing(policy: ConversionPolicy) -> bool;

/// The strict default conversion policy, `ConversionPolicy::default()`.
///
/// The default is the strict profile, whose string settings are those of
/// `StringConversionPolicy::default()`: whitespace and blank strings are
/// kept as they are. Nothing else of the opaque policy is claimed.
#[verifier::external_body]
pub(crate) fn default_conversion_policy() -> (r: ConversionPolicy)
    ensures
        !trims_strings(r),
        !blank_strings_are_missing(r),
{
    ConversionPolicy::default()
}

/// The environment-variable style conversion policy,
/// `ConversionPolicy::env_friendly()`: documented to trim strings, treat
/// blank scalar strings as missing, accept common boolean aliases and split
/// scalar strings on commas. Of these, the two string settings are claimed;
/// nothing else of the opaque policy is.
#[verifier::external_body]
pub(crate) fn env_friendly_conversion_policy() -> (r: ConversionPolicy)
    ensures
        trims_strings(r),
        blank_strings_are_missing(r),
{
    ConversionPolicy::env_friendly()
}

/// The conversion policy that `policy` becomes with its blank string policy setting
/// replaced by `setting`.
pub uninterp spec fn policy_with_blank_string(policy: ConversionPolicy, setting: BlankStringPolicy) -> ConversionPolicy;

/// `policy` with different blank string handling.
///
/// Calls `ConversionPolicy::into_builder`, `ConversionPolicyBuilder::blank_string_policy`
/// and `build`, which replace that one setting; the result is a function of the policy
/// and the setting alone.
#[verifier::external_body]
pub(crate) fn conversion_with_blank_string(policy: ConversionPolicy, setting: BlankStringPolicy) -> (r: ConversionPolicy)
    ensures
        r == policy_with_blank_string(policy, setting),
{
    policy.into_builder().blank_string_policy(setting).build()
}

/// The conversion policy that `policy` becomes with its empty item policy setting
/// replaced by `setting`.
pub uninterp spec fn policy_with_empty_item(policy: ConversionPolicy, setting: EmptyItemPolicy) -> ConversionPolicy;

/// `policy` with different empty collection item handling.
///
/// Calls `ConversionPolicy::into_builder`, `ConversionPolicyBuilder::empty_item_policy`
/// and `build`, which replace that one setting; the result is a function of the policy
/// and the setting alone.
#[verifier::external_body]
pub(crate) fn conversion_with_empty_item(policy: ConversionPolicy, setting: EmptyItemPolicy) -> (r: ConversionPolicy)
    ensures
        r == policy_with_empty_item(policy, setting),
{
    policy.into_builder().empty_item_policy(setting).build()
}

/// The conversion policy that `policy` becomes with its string policy setting
/// replaced by `setting`.
pub uninterp spec fn policy_with_string(policy: ConversionPolicy, setting: StringConversionPolicy) -> ConversionPolicy;

/// `policy` with different string conversion settings.
///
/// Calls `ConversionPolicy::into_builder`, `ConversionPolicyBuilder::string_policy`
/// and `build`, which replace that one setting; the result is a function of the policy
/// and the setting alone.
#[verifier::external_body]
pub(crate) fn conversion_with_string(policy: ConversionPolicy, setting: StringConversionPolicy) -> (r: ConversionPolicy)
    ensures
        r == policy_with_string(policy, setting),
{
    policy.into_builder().string_policy(setting).build()
}

/// The conversion policy that `policy` becomes with its boolean policy setting
/// replaced by `setting`.
pub uninterp spec fn policy_with_boolean(policy: ConversionPolicy, setting: BooleanConversionPolicy) -> ConversionPolicy;

/// `policy` with different boolean conversion settings.
///
/// Calls `ConversionPolicy::into_builder`, `ConversionPolicyBuilder::boolean_policy`
/// and `build`, which replace that one setting; the result is a function of the policy
/// and the setting alone.
#[verifier::external_body]
pub(crate) fn conversion_with_boolean(policy: ConversionPolicy, setting: BooleanConversionPolicy) -> (r: ConversionPolicy)
    ensures
        r == policy_with_boolean(policy, setting),
{
    policy.into_builder().boolean_policy(setting).build()
}

/// The conversion policy that `policy` becomes with its collection policy setting
/// replaced by `setting`.
pub uninterp spec fn policy_with_collection(policy: ConversionPolicy, setting: CollectionConversionPolicy) -> ConversionPolicy;

/// `policy` with different collection conversion settings.
///
/// Calls `ConversionPolicy::into_builder`, `ConversionPolicyBuilder::collection_policy`
/// and `build`, which replace that one setting; the result is a function of the policy
/// and the setting alone.
#[verifier::external_body]
pub(crate) fn conversion_with_collection(policy: ConversionPolicy, setting: CollectionConversionPolicy) -> (r: ConversionPolicy)
    ensures
        r == policy_with_collection(policy, setting),
{
    policy.into_builder().collection_policy(setting).build()
}

/// The conversion policy that `policy` becomes with its duration policy setting
/// replaced by `setting`.
pub uninterp spec fn policy_with_duration(policy: ConversionPolicy, setting: DurationConversionPolicy) -> ConversionPolicy;

/// `policy` with different duration conversion settings.
///
/// Calls `ConversionPolicy::into_builder`, `ConversionPolicyBuilder::duration_policy`
/// and `build`, which replace that one setting; the result is a function of the policy
/// and the setting alone.
#[verifier::external_body]
pub(crate) fn conversion_with_duration(policy: ConversionPolicy, setting: DurationConversionPolicy) -> (r: ConversionPolicy)
    ensures
        r == policy_with_duration(policy, setting),
{
    policy.into_builder().duration_policy(setting).build()
}

/// The conversion policy that `policy` becomes with its numeric policy setting
/// replaced by `setting`.
pub uninterp spec fn policy_with_numeric(policy: ConversionPolicy, setting: NumericConversionPolicy) -> ConversionPolicy;

/// `policy` with different numeric conversion settings.
///
/// Calls `ConversionPolicy::into_builder`, `ConversionPolicyBuilder::numeric_policy`
/// and `build`, which replace that one setting; the result is a function of the policy
/// and the setting alone.
#[verifier::external_body]
pub(crate) fn conversion_with_numeric(policy: ConversionPolicy, setting: NumericConversionPolicy) -> (r: ConversionPolicy)
    ensures
        r == policy_with_numeric(policy, setting),
{
    policy.into_builder().numeric_policy(setting).build()
}

/// Controls variable substitution and bounds the resources used by expansion.
#[derive(Debug, Clone, PartialEq, Eq, Structural)]
pub struct VariableSubstitutionOptions {
    enabled: bool,
    environment_fallback_enabled: bool,
    max_depth: usize,
    max_expansions: usize,
    max_output_bytes: usize,
}

impl VariableSubstitutionOptions {
    /// Whether `${...}` placeholders are expanded during typed reads.
    pub closed spec fn spec_enabled(&self) -> bool {
        self.enabled
    }

    /// Whether unresolved names may fall back to process environment variables.
    pub closed spec fn spec_environment_fallback_enabled(&self) -> bool {
        self.environment_fallback_enabled
    }

    /// Maximum active variable-reference chain length.
    pub closed spec fn spec_max_depth(&self) -> usize {
        self.max_depth
    }

    /// Maximum number of placeholder resolutions in one read.
    pub closed spec fn spec_max_expansions(&self) -> usize {
        self.max_expansions
    }

    /// Maximum UTF-8 byte length of one expanded value.
    pub closed spec fn spec_max_output_bytes(&self) -> usize {
        self.max_output_bytes
    }

    /// Returns whether typed reads expand `${...}` placeholders.
    pub fn is_enabled(&self) -> (r: bool)
        ensures
            r == self.spec_enabled(),
    {
        self.enabled
    }

    /// Returns whether unresolved variables may use the process environment.
    pub fn is_environment_fallback_enabled(&self) -> (r: bool)
        ensures
            r == self.spec_environment_fallback_enabled(),
    {
        self.environment_fallback_enabled
    }

    /// Returns the maximum recursive substitution depth.
    pub fn max_depth(&self) -> (r: usize)
        ensures
            r == self.spec_max_depth(),
    {
        self.max_depth
    }

    /// Returns the maximum placeholder-resolution count per read.
    pub fn max_expansions(&self) -> (r: usize)
        ensures
            r == self.spec_max_expansions(),
    {
        self.max_expansions
    }

    /// Returns the maximum expanded UTF-8 byte length.
    pub fn max_output_bytes(&self) -> (r: usize)
        ensures
            r == self.spec_max_output_bytes(),
    {
        self.max_output_bytes
    }

    /// Returns a copy with another value for whether typed reads expand `${...}` placeholders.
    pub fn with_enabled(self, enabled: bool) -> (r: Self)
        ensures
            r.spec_enabled() == enabled,
            r.spec_environment_fallback_enabled() == self.spec_environment_fallback_enabled(),
            r.spec_max_depth() == self.spec_max_depth(),
            r.spec_max_expansions() == self.spec_max_expansions(),
            r.spec_max_output_bytes() == self.spec_max_output_bytes(),
    {
        let mut r = self;
        r.enabled = enabled;
        r
    }

    /// Returns a copy with another value for whether unresolved variables may use the process environment.
    pub fn with_environment_fallback_enabled(self, environment_fallback_enabled: bool) -> (r: Self)
        ensures
            r.spec_environment_fallback_enabled() == environment_fallback_enabled,
            r.spec_enabled() == self.spec_enabled(),
            r.spec_max_depth() == self.spec_max_depth(),
            r.spec_max_expansions() == self.spec_max_expansions(),
            r.spec_max_output_bytes() == self.spec_max_output_bytes(),
    {
        let mut r = self;
        r.environment_fallback_enabled = environment_fallback_enabled;
        r
    }

    /// Returns a copy with another value for maximum recursive substitution depth.
    pub fn with_max_depth(self, max_depth: usize) -> (r: Self)
        ensures
            r.spec_max_depth() == max_depth,
            r.spec_enabled() == self.spec_enabled(),
            r.spec_environment_fallback_enabled() == self.spec_environment_fallback_enabled(),
            r.spec_max_expansions() == self.spec_max_expansions(),
            r.spec_max_output_bytes() == self.spec_max_output_bytes(),
    {
        let mut r = self;
        r.max_depth = max_depth;
        r
    }

    /// Returns a copy with another value for maximum placeholder-resolution count per read.
    pub fn with_max_expansions(self, max_expansions: usize) -> (r: Self)
        ensures
            r.spec_max_expansions() == max_expansions,
            r.spec_enabled() == self.spec_enabled(),
            r.spec_environment_fallback_enabled() == self.spec_environment_fallback_enabled(),
            r.spec_max_depth() == self.spec_max_depth(),
            r.spec_max_output_bytes() == self.spec_max_output_bytes(),
    {
        let mut r = self;
        r.max_expansions = max_expansions;
        r
    }

    /// Returns a copy with another value for maximum expanded UTF-8 byte length.
    pub fn with_max_output_bytes(self, max_output_bytes: usize) -> (r: Self)
        ensures
            r.spec_max_output_bytes() == max_output_bytes,
            r.spec_enabled() == self.spec_enabled(),
            r.spec_environment_fallback_enabled() == self.spec_environment_fallback_enabled(),
            r.spec_max_depth() == self.spec_max_depth(),
            r.spec_max_expansions() == self.spec_max_expansions(),
    {
        let mut r = self;
        r.max_output_bytes = max_output_bytes;
        r
    }
}

impl VariableSubstitutionOptions {
    /// The bounded default substitution policy.
    pub closed spec fn spec_default() -> VariableSubstitutionOptions {
        VariableSubstitutionOptions {
            enabled: true,
            environment_fallback_enabled: false,
            max_depth: DEFAULT_MAX_SUBSTITUTION_DEPTH,
            max_expansions: DEFAULT_MAX_SUBSTITUTION_EXPANSIONS,
            max_output_bytes: DEFAULT_MAX_SUBSTITUTION_OUTPUT_BYTES,
        }
    }
}

impl Default for VariableSubstitutionOptions {
    /// The bounded default substitution policy: enabled, without environment
    /// fallback, with the default depth, expansion and output limits.
    fn default() -> (r: Self)
        ensures
            r.spec_enabled(),
            !r.spec_environment_fallback_enabled(),
            r.spec_max_depth() == DEFAULT_MAX_SUBSTITUTION_DEPTH,
            r.spec_max_expansions() == DEFAULT_MAX_SUBSTITUTION_EXPANSIONS,
            r.spec_max_output_bytes() == DEFAULT_MAX_SUBSTITUTION_OUTPUT_BYTES,
            r == Self::spec_default(),
    {
        VariableSubstitutionOptions {
            enabled: true,
            environment_fallback_enabled: false,
            max_depth: DEFAULT_MAX_SUBSTITUTION_DEPTH,
            max_expansions: DEFAULT_MAX_SUBSTITUTION_EXPANSIONS,
            max_output_bytes: DEFAULT_MAX_SUBSTITUTION_OUTPUT_BYTES,
        }
    }
}

/// Sources consulted while resolving an interpolated variable.
#[derive(Debug, Clone, Copy, PartialEq, Eq, Structural)]
pub enum InterpolationSources {
    /// Resolve variables from configuration data only.
    ConfigOnly,
    /// Resolve from configuration data, then fall back to the process
    /// environment.
    ConfigThenEnv,
}

impl Default for InterpolationSources {
    /// Uses configuration data as the only interpolation source.
    fn default() -> (r: Self)
        ensures
            r == InterpolationSources::ConfigOnly,
    {
        InterpolationSources::ConfigOnly
    }
}

/// Runtime policy that controls configuration conversion and interpolation.
#[derive(Debug, Clone)]
pub struct ReadPolicy {
    conversion: ConversionPolicy,
    interpolation_sources: InterpolationSources,
    max_interpolation_depth: usize,
    max_interpolation_expansions: usize,
    max_interpolation_output_bytes: usize,
}

impl ReadPolicy {
    /// The conversion policy.
    pub closed spec fn spec_conversion(&self) -> ConversionPolicy {
        self.conversion
    }

    /// The sources consulted by interpolated reads.
    pub closed spec fn spec_interpolation_sources(&self) -> InterpolationSources {
        self.interpolation_sources
    }

    /// The maximum active placeholder-reference chain length.
    pub closed spec fn spec_max_interpolation_depth(&self) -> usize {
        self.max_interpolation_depth
    }

    /// The maximum placeholder resolutions per read.
    pub closed spec fn spec_max_interpolation_expansions(&self) -> usize {
        self.max_interpolation_expansions
    }

    /// The maximum UTF-8 bytes of one interpolated value.
    pub closed spec fn spec_max_interpolation_output_bytes(&self) -> usize {
        self.max_interpolation_output_bytes
    }

    /// Returns the conversion policy.
    pub fn conversion_options(&self) -> (r: &ConversionPolicy)
        ensures
            *r == self.spec_conversion(),
    {
        &self.conversion
    }

    /// Returns the sources consulted by interpolated reads.
    pub fn interpolation_sources(&self) -> (r: InterpolationSources)
        ensures
            r == self.spec_interpolation_sources(),
    {
        self.interpolation_sources
    }

    /// Returns the maximum active placeholder-reference chain length.
    pub fn max_interpolation_depth(&self) -> (r: usize)
        ensures
            r == self.spec_max_interpolation_depth(),
    {
        self.max_interpolation_depth
    }

    /// Returns the maximum placeholder resolutions per read.
    pub fn max_interpolation_expansions(&self) -> (r: usize)
        ensures
            r == self.spec_max_interpolation_expansions(),
    {
        self.max_interpolation_expansions
    }

    /// Returns the maximum UTF-8 bytes of one interpolated value.
    pub fn max_interpolation_output_bytes(&self) -> (r: usize)
        ensures
            r == self.spec_max_interpolation_output_bytes(),
    {
        self.max_interpolation_output_bytes
    }

    /// Returns a copy with another value for the sources consulted by interpolated reads.
    pub fn with_interpolation_sources(self, interpolation_sources: InterpolationSources) -> (r: Self)
        ensures
            r.spec_interpolation_sources() == interpolation_sources,
            r.spec_conversion() == self.spec_conversion(),
            r.spec_max_interpolation_depth() == self.spec_max_interpolation_depth(),
            r.spec_max_interpolation_expansions() == self.spec_max_interpolation_expansions(),
            r.spec_max_interpolation_output_bytes() == self.spec_max_interpolation_output_bytes(),
    {
        let mut r = self;
        r.interpolation_sources = interpolation_sources;
        r
    }

    /// Returns a copy with another value for the maximum active placeholder-reference chain length.
    pub fn with_max_interpolation_depth(self, max_interpolation_depth: usize) -> (r: Self)
        ensures
            r.spec_max_interpolation_depth() == max_interpolation_depth,
            r.spec_conversion() == self.spec_conversion(),
            r.spec_interpolation_sources() == self.spec_interpolation_sources(),
            r.spec_max_interpolation_expansions() == self.spec_max_interpolation_expansions(),
            r.spec_max_interpolation_output_bytes() == self.spec_max_interpolation_output_bytes(),
    {
        let mut r = self;
        r.max_interpolation_depth = max_interpolation_depth;
        r
    }

    /// Returns a copy with another value for the maximum placeholder resolutions per read.
    pub fn with_max_interpolation_expansions(self, max_interpolation_expansions: usize) -> (r: Self)
        ensures
            r.spec_max_interpolation_expansions() == max_interpolation_expansions,
            r.spec_conversion() == self.spec_conversion(),
            r.spec_interpolation_sources() == self.spec_interpolation_sources(),
            r.spec_max_interpolation_depth() == self.spec_max_interpolation_depth(),
            r.spec_max_interpolation_output_bytes() == self.spec_max_interpolation_output_bytes(),
    {
        let mut r = self;
        r.max_interpolation_expansions = max_interpolation_expansions;
        r
    }

    /// Returns a copy with another value for the maximum UTF-8 bytes of one interpolated value.
    pub fn with_max_interpolation_output_bytes(self, max_interpolation_output_bytes: usize) -> (r: Self)
        ensures
            r.spec_max_interpolation_output_bytes() == max_interpolation_output_bytes,
            r.spec_conversion() == self.spec_conversion(),
            r.spec_interpolation_sources() == self.spec_interpolation_sources(),
            r.spec_max_interpolation_depth() == self.spec_max_interpolation_depth(),
            r.spec_max_interpolation_expansions() == self.spec_max_interpolation_expansions(),
    {
        let mut r = self;
        r.max_interpolation_output_bytes = max_interpolation_output_bytes;
        r
    }

    /// Returns a copy with different blank string handling; only the conversion policy
    /// changes.
    pub fn with_blank_string_policy(self, setting: BlankStringPolicy) -> (r: Self)
        ensures
            r.spec_conversion() == policy_with_blank_string(self.spec_conversion(), setting),
            r.spec_interpolation_sources() == self.spec_interpolation_sources(),
            r.spec_max_interpolation_depth() == self.spec_max_interpolation_depth(),
            r.spec_max_interpolation_expansions() == self.spec_max_interpolation_expansions(),
            r.spec_max_interpolation_output_bytes() == self.spec_max_interpolation_output_bytes(),
    {
        let mut r = self;
        r.conversion = conversion_with_blank_string(r.conversion, setting);
        r
    }

    /// Returns a copy with different empty collection item handling; only the conversion policy
    /// changes.
    pub fn with_empty_item_policy(self, setting: EmptyItemPolicy) -> (r: Self)
        ensures
            r.spec_conversion() == policy_with_empty_item(self.spec_conversion(), setting),
            r.spec_interpolation_sources() == self.spec_interpolation_sources(),
            r.spec_max_interpolation_depth() == self.spec_max_interpolation_depth(),
            r.spec_max_interpolation_expansions() == self.spec_max_interpolation_expansions(),
            r.spec_max_interpolation_output_bytes() == self.spec_max_interpolation_output_bytes(),
    {
        let mut r = self;
        r.conversion = conversion_with_empty_item(r.conversion, setting);
        r
    }

    /// Returns a copy with different string conversion settings; only the conversion policy
    /// changes.
    pub fn with_string_options(self, setting: StringConversionPolicy) -> (r: Self)
        ensures
            r.spec_conversion() == policy_with_string(self.spec_conversion(), setting),
            r.spec_interpolation_sources() == self.spec_interpolation_sources(),
            r.spec_max_interpolation_depth() == self.spec_max_interpolation_depth(),
            r.spec_max_interpolation_expansions() == self.spec_max_interpolation_expansions(),
            r.spec_max_interpolation_output_bytes() == self.spec_max_interpolation_output_bytes(),
    {
        let mut r = self;
        r.conversion = conversion_with_string(r.conversion, setting);
        r
    }

    /// Returns a copy with different boolean conversion settings; only the conversion policy
    /// changes.
    pub fn with_boolean_options(self, setting: BooleanConversionPolicy) -> (r: Self)
        ensures
            r.spec_conversion() == policy_with_boolean(self.spec_conversion(), setting),
            r.spec_interpolation_sources() == self.spec_interpolation_sources(),
            r.spec_max_interpolation_depth() == self.spec_max_interpolation_depth(),
            r.spec_max_interpolation_expansions() == self.spec_max_interpolation_expansions(),
            r.spec_max_interpolation_output_bytes() == self.spec_max_interpolation_output_bytes(),
    {
        let mut r = self;
        r.conversion = conversion_with_boolean(r.conversion, setting);
        r
    }

    /// Returns a copy with different collection conversion settings; only the conversion policy
    /// changes.
    pub fn with_collection_options(self, setting: CollectionConversionPolicy) -> (r: Self)
        ensures
            r.spec_conversion() == policy_with_collection(self.spec_conversion(), setting),
            r.spec_interpolation_sources() == self.spec_interpolation_sources(),
            r.spec_max_interpolation_depth() == self.spec_max_interpolation_depth(),
            r.spec_max_interpolation_expansions() == self.spec_max_interpolation_expansions(),
            r.spec_max_interpolation_output_bytes() == self.spec_max_interpolation_output_bytes(),
    {
        let mut r = self;
        r.conversion = conversion_with_collection(r.conversion, setting);
        r
    }

    /// Returns a copy with different duration conversion settings; only the conversion policy
    /// changes.
    pub fn with_duration_options(self, setting: DurationConversionPolicy) -> (r: Self)
        ensures
            r.spec_conversion() == policy_with_duration(self.spec_conversion(), setting),
            r.spec_interpolation_sources() == self.spec_interpolation_sources(),
            r.spec_max_interpolation_depth() == self.spec_max_interpolation_depth(),
            r.spec_max_interpolation_expansions() == self.spec_max_interpolation_expansions(),
            r.spec_max_interpolation_output_bytes() == self.spec_max_interpolation_output_bytes(),
    {
        let mut r = self;
        r.conversion = conversion_with_duration(r.conversion, setting);
        r
    }

    /// Returns a copy with different numeric conversion settings; only the conversion policy
    /// changes.
    pub fn with_numeric_options(self, setting: NumericConversionPolicy) -> (r: Self)
        ensures
            r.spec_conversion() == policy_with_numeric(self.spec_conversion(), setting),
            r.spec_interpolation_sources() == self.spec_interpolation_sources(),
            r.spec_max_interpolation_depth() == self.spec_max_interpolation_depth(),
            r.spec_max_interpolation_expansions() == self.spec_max_interpolation_expansions(),
            r.spec_max_interpolation_output_bytes() == self.spec_max_interpolation_output_bytes(),
    {
        let mut r = self;
        r.conversion = conversion_with_numeric(r.conversion, setting);
        r
    }
}

/// Runtime options that control configuration conversion and interpolation.
#[derive(Debug, Clone)]
pub struct ReadOptions {
    conversion: ConversionPolicy,
    environment_fallback_enabled: bool,
    max_interpolation_depth: usize,
    max_interpolation_expansions: usize,
    max_interpolation_output_bytes: usize,
}

impl ReadOptions {
    /// The conversion policy.
    pub closed spec fn spec_conversion(&self) -> ConversionPolicy {
        self.conversion
    }

    /// Whether unresolved placeholders may use process environment variables.
    pub closed spec fn spec_environment_fallback_enabled(&self) -> bool {
        self.environment_fallback_enabled
    }

    /// The maximum active placeholder-reference chain length.
    pub closed spec fn spec_max_interpolation_depth(&self) -> usize {
        self.max_interpolation_depth
    }

    /// The maximum placeholder resolutions per read.
    pub closed spec fn spec_max_interpolation_expansions(&self) -> usize {
        self.max_interpolation_expansions
    }

    /// The maximum UTF-8 bytes of one interpolated value.
    pub closed spec fn spec_max_interpolation_output_bytes(&self) -> usize {
        self.max_interpolation_output_bytes
    }

    /// Returns the conversion policy.
    pub fn conversion_options(&self) -> (r: &ConversionPolicy)
        ensures
            *r == self.spec_conversion(),
    {
        &self.conversion
    }

    /// Returns whether unresolved placeholders may use process environment variables.
    pub fn is_environment_fallback_enabled(&self) -> (r: bool)
        ensures
            r == self.spec_environment_fallback_enabled(),
    {
        self.environment_fallback_enabled
    }

    /// Returns the maximum active placeholder-reference chain length.
    pub fn max_interpolation_depth(&self) -> (r: usize)
        ensures
            r == self.spec_max_interpolation_depth(),
    {
        self.max_interpolation_depth
    }

    /// Returns the maximum placeholder resolutions per read.
    pub fn max_interpolation_expansions(&self) -> (r: usize)
        ensures
            r == self.spec_max_interpolation_expansions(),
    {
        self.max_interpolation_expansions
    }

    /// Returns the maximum UTF-8 bytes of one interpolated value.
    pub fn max_interpolation_output_bytes(&self) -> (r: usize)
        ensures
            r == self.spec_max_interpolation_output_bytes(),
    {
        self.max_interpolation_output_bytes
    }

    /// Returns a copy with another value for whether unresolved placeholders may use process environment variables.
    pub fn with_environment_fallback_enabled(self, environment_fallback_enabled: bool) -> (r: Self)
        ensures
            r.spec_environment_fallback_enabled() == environment_fallback_enabled,
            r.spec_conversion() == self.spec_conversion(),
            r.spec_max_interpolation_depth() == self.spec_max_interpolation_depth(),
            r.spec_max_interpolation_expansions() == self.spec_max_interpolation_expansions(),
            r.spec_max_interpolation_output_bytes() == self.spec_max_interpolation_output_bytes(),
    {
        let mut r = self;
        r.environment_fallback_enabled = environment_fallback_enabled;
        r
    }

    /// Returns a copy with another value for the maximum active placeholder-reference chain length.
    pub fn with_max_interpolation_depth(self, max_interpolation_depth: usize) -> (r: Self)
        ensures
            r.spec_max_interpolation_depth() == max_interpolation_depth,
            r.spec_conversion() == self.spec_conversion(),
            r.spec_environment_fallback_enabled() == self.spec_environment_fallback_enabled(),
            r.spec_max_interpolation_expansions() == self.spec_max_interpolation_expansions(),
            r.spec_max_interpolation_output_bytes() == self.spec_max_interpolation_output_bytes(),
    {
        let mut r = self;
        r.max_interpolation_depth = max_interpolation_depth;
        r
    }

    /// Returns a copy with another value for the maximum placeholder resolutions per read.
    pub fn with_max_interpolation_expansions(self, max_interpolation_expansions: usize) -> (r: Self)
        ensures
            r.spec_max_interpolation_expansions() == max_interpolation_expansions,
            r.spec_conversion() == self.spec_conversion(),
            r.spec_environment_fallback_enabled() == self.spec_environment_fallback_enabled(),
            r.spec_max_interpolation_depth() == self.spec_max_interpolation_depth(),
            r.spec_max_interpolation_output_bytes() == self.spec_max_interpolation_output_bytes(),
    {
        let mut r = self;
        r.max_interpolation_expansions = max_interpolation_expansions;
        r
    }

    /// Returns a copy with another value for the maximum UTF-8 bytes of one interpolated value.
    pub fn with_max_interpolation_output_bytes(self, max_interpolation_output_bytes: usize) -> (r: Self)
        ensures
            r.spec_max_interpolation_output_bytes() == max_interpolation_output_bytes,
            r.spec_conversion() == self.spec_conversion(),
            r.spec_environment_fallback_enabled() == self.spec_environment_fallback_enabled(),
            r.spec_max_interpolation_depth() == self.spec_max_interpolation_depth(),
            r.spec_max_interpolation_expansions() == self.spec_max_interpolation_expansions(),
    {
        let mut r = self;
        r.max_interpolation_output_bytes = max_interpolation_output_bytes;
        r
    }

    /// Returns a copy with different blank string handling; only the conversion policy
    /// changes.
    pub fn with_blank_string_policy(self, setting: BlankStringPolicy) -> (r: Self)
        ensures
            r.spec_conversion() == policy_with_blank_string(self.spec_conversion(), setting),
            r.spec_environment_fallback_enabled() == self.spec_environment_fallback_enabled(),
            r.spec_max_interpolation_depth() == self.spec_max_interpolation_depth(),
            r.spec_max_interpolation_expansions() == self.spec_max_interpolation_expansions(),
            r.spec_max_interpolation_output_bytes() == self.spec_max_interpolation_output_bytes(),
    {
        let mut r = self;
        r.conversion = conversion_with_blank_string(r.conversion, setting);
        r
    }

    /// Returns a copy with different empty collection item handling; only the conversion policy
    /// changes.
    pub fn with_empty_item_policy(self, setting: EmptyItemPolicy) -> (r: Self)
        ensures
            r.spec_conversion() == policy_with_empty_item(self.spec_conversion(), setting),
            r.spec_environment_fallback_enabled() == self.spec_environment_fallback_enabled(),
            r.spec_max_interpolation_depth() == self.spec_max_interpolation_depth(),
            r.spec_max_interpolation_expansions() == self.spec_max_interpolation_expansions(),
            r.spec_max_interpolation_output_bytes() == self.spec_max_interpolation_output_bytes(),
    {
        let mut r = self;
        r.conversion = conversion_with_empty_item(r.conversion, setting);
        r
    }

    /// Returns a copy with different string conversion settings; only the conversion policy
    /// changes.
    pub fn with_string_options(self, setting: StringConversionPolicy) -> (r: Self)
        ensures
            r.spec_conversion() == policy_with_string(self.spec_conversion(), setting),
            r.spec_environment_fallback_enabled() == self.spec_environment_fallback_enabled(),
            r.spec_max_interpolation_depth() == self.spec_max_interpolation_depth(),
            r.spec_max_interpolation_expansions() == self.spec_max_interpolation_expansions(),
            r.spec_max_interpolation_output_bytes() == self.spec_max_interpolation_output_bytes(),
    {
        let mut r = self;
        r.conversion = conversion_with_string(r.conversion, setting);
        r
    }

    /// Returns a copy with different boolean conversion settings; only the conversion policy
    /// changes.
    pub fn with_boolean_options(self, setting: BooleanConversionPolicy) -> (r: Self)
        ensures
            r.spec_conversion() == policy_with_boolean(self.spec_conversion(), setting),
            r.spec_environment_fallback_enabled() == self.spec_environment_fallback_enabled(),
            r.spec_max_interpolation_depth() == self.spec_max_interpolation_depth(),
            r.spec_max_interpolation_expansions() == self.spec_max_interpolation_expansions(),
            r.spec_max_interpolation_output_bytes() == self.spec_max_interpolation_output_bytes(),
    {
        let mut r = self;
        r.conversion = conversion_with_boolean(r.conversion, setting);
        r
    }

    /// Returns a copy with different collection conversion settings; only the conversion policy
    /// changes.
    pub fn with_collection_options(self, setting: CollectionConversionPolicy) -> (r: Self)
        ensures
            r.spec_conversion() == policy_with_collection(self.spec_conversion(), setting),
            r.spec_environment_fallback_enabled() == self.spec_environment_fallback_enabled(),
            r.spec_max_interpolation_depth() == self.spec_max_interpolation_depth(),
            r.spec_max_interpolation_expansions() == self.spec_max_interpolation_expansions(),
            r.spec_max_interpolation_output_bytes() == self.spec_max_interpolation_output_bytes(),
    {
        let mut r = self;
        r.conversion = conversion_with_collection(r.conversion, setting);
        r
    }

    /// Returns a copy with different duration conversion settings; only the conversion policy
    /// changes.
    pub fn with_duration_options(self, setting: DurationConversionPolicy) -> (r: Self)
        ensures
            r.spec_conversion() == policy_with_duration(self.spec_conversion(), setting),
            r.spec_environment_fallback_enabled() == self.spec_environment_fallback_enabled(),
            r.spec_max_interpolation_depth() == self.spec_max_interpolation_depth(),
            r.spec_max_interpolation_expansions() == self.spec_max_interpolation_expansions(),
            r.spec_max_interpolation_output_bytes() == self.spec_max_interpolation_output_bytes(),
    {
        let mut r = self;
        r.conversion = conversion_with_duration(r.conversion, setting);
        r
    }

    /// Returns a copy with different numeric conversion settings; only the conversion policy
    /// changes.
    pub fn with_numeric_options(self, setting: NumericConversionPolicy) -> (r: Self)
        ensures
            r.spec_conversion() == policy_with_numeric(self.spec_conversion(), setting),
            r.spec_environment_fallback_enabled() == self.spec_environment_fallback_enabled(),
            r.spec_max_interpolation_depth() == self.spec_max_interpolation_depth(),
            r.spec_max_interpolation_expansions() == self.spec_max_interpolation_expansions(),
            r.spec_max_interpolation_output_bytes() == self.spec_max_interpolation_output_bytes(),
    {
        let mut r = self;
        r.conversion = conversion_with_numeric(r.conversion, setting);
        r
    }
}

/// Runtime options that control how configuration values are read and parsed.
#[derive(Debug, Clone)]
pub struct ConfigReadOptions {
    conversion: ConversionPolicy,
    substitution: VariableSubstitutionOptions,
}

impl ConfigReadOptions {
    /// The conversion policy.
    pub closed spec fn spec_conversion(&self) -> ConversionPolicy {
        self.conversion
    }

    /// The variable-substitution policy and its resource limits.
    pub closed spec fn spec_substitution(&self) -> VariableSubstitutionOptions {
        self.substitution
    }

    /// Returns the conversion policy.
    pub fn conversion_options(&self) -> (r: &ConversionPolicy)
        ensures
            *r == self.spec_conversion(),
    {
        &self.conversion
    }

    /// Returns the variable-substitution policy and its resource limits.
    pub fn substitution(&self) -> (r: &VariableSubstitutionOptions)
        ensures
            *r == self.spec_substitution(),
    {
        &self.substitution
    }

    /// Returns a copy with another value for the variable-substitution policy and its resource limits.
    pub fn with_substitution(self, substitution: VariableSubstitutionOptions) -> (r: Self)
        ensures
            r.spec_substitution() == substitution,
            r.spec_conversion() == self.spec_conversion(),
    {
        let mut r = self;
        r.substitution = substitution;
        r
    }

    /// Returns a copy with different blank string handling; only the conversion policy
    /// changes.
    pub fn with_blank_string_policy(self, setting: BlankStringPolicy) -> (r: Self)
        ensures
            r.spec_conversion() == policy_with_blank_string(self.spec_conversion(), setting),
            r.spec_substitution() == self.spec_substitution(),
    {
        let mut r = self;
        r.conversion = conversion_with_blank_string(r.conversion, setting);
        r
    }

    /// Returns a copy with different empty collection item handling; only the conversion policy
    /// changes.
    pub fn with_empty_item_policy(self, setting: EmptyItemPolicy) -> (r: Self)
        ensures
            r.spec_conversion() == policy_with_empty_item(self.spec_conversion(), setting),
            r.spec_substitution() == self.spec_substitution(),
    {
        let mut r = self;
        r.conversion = conversion_with_empty_item(r.conversion, setting);
        r
    }

    /// Returns a copy with different string conversion settings; only the conversion policy
    /// changes.
    pub fn with_string_options(self, setting: StringConversionPolicy) -> (r: Self)
        ensures
            r.spec_conversion() == policy_with_string(self.spec_conversion(), setting),
            r.spec_substitution() == self.spec_substitution(),
    {
        let mut r = self;
        r.conversion = conversion_with_string(r.conversion, setting);
        r
    }

    /// Returns a copy with different boolean conversion settings; only the conversion policy
    /// changes.
    pub fn with_boolean_options(self, setting: BooleanConversionPolicy) -> (r: Self)
        ensures
            r.spec_conversion() == policy_with_boolean(self.spec_conversion(), setting),
            r.spec_substitution() == self.spec_substitution(),
    {
        let mut r = self;
        r.conversion = conversion_with_boolean(r.conversion, setting);
        r
    }

    /// Returns a copy with different collection conversion settings; only the conversion policy
    /// changes.
    pub fn with_collection_options(self, setting: CollectionConversionPolicy) -> (r: Self)
        ensures
            r.spec_conversion() == policy_with_collection(self.spec_conversion(), setting),
            r.spec_substitution() == self.spec_substitution(),
    {
        let mut r = self;
        r.conversion = conversion_with_collection(r.conversion, setting);
        r
    }

    /// Returns a copy with different duration conversion settings; only the conversion policy
    /// changes.
    pub fn with_duration_options(self, setting: DurationConversionPolicy) -> (r: Self)
        ensures
            r.spec_conversion() == policy_with_duration(self.spec_conversion(), setting),
            r.spec_substitution() == self.spec_substitution(),
    {
        let mut r = self;
        r.conversion = conversion_with_duration(r.conversion, setting);
        r
    }

    /// Returns a copy with different numeric conversion settings; only the conversion policy
    /// changes.
    pub fn with_numeric_options(self, setting: NumericConversionPolicy) -> (r: Self)
        ensures
            r.spec_conversion() == policy_with_numeric(self.spec_conversion(), setting),
            r.spec_substitution() == self.spec_substitution(),
    {
        let mut r = self;
        r.conversion = conversion_with_numeric(r.conversion, setting);
        r
    }
}

impl ReadPolicy {
    /// Interpolation resolves from configuration only, with the default
    /// depth, expansion and output limits.
    pub open spec fn has_default_interpolation(&self) -> bool {
        &&& self.spec_interpolation_sources() == InterpolationSources::ConfigOnly
        &&& self.spec_max_interpolation_depth() == DEFAULT_MAX_SUBSTITUTION_DEPTH
        &&& self.spec_max_interpolation_expansions() == DEFAULT_MAX_SUBSTITUTION_EXPANSIONS
        &&& self.spec_max_interpolation_output_bytes() == DEFAULT_MAX_SUBSTITUTION_OUTPUT_BYTES
    }

    /// The default policy: the default interpolation settings, and a strict
    /// conversion policy that neither trims strings nor treats blank ones
    /// as missing.
    pub open spec fn is_default(&self) -> bool {
        &&& self.has_default_interpolation()
        &&& !trims_strings(self.spec_conversion())
        &&& !blank_strings_are_missing(self.spec_conversion())
    }

    /// A policy that resolves placeholders from configuration only: the
    /// default policy.
    pub fn config_only() -> (r: Self)
        ensures
            r.is_default(),
    {
        Self::default()
    }

    /// A policy with environment-variable style conversion (strings are
    /// trimmed and blank ones count as missing); interpolation still
    /// resolves from configuration data only.
    pub fn env_friendly() -> (r: Self)
        ensures
            r.has_default_interpolation(),
            trims_strings(r.spec_conversion()),
            blank_strings_are_missing(r.spec_conversion()),
    {
        let mut r = Self::default();
        r.conversion = env_friendly_conversion_policy();
        r
    }

    /// A default policy with the given conversion policy.
    pub fn from_conversion(conversion: ConversionPolicy) -> (r: Self)
        ensures
            r.has_default_interpolation(),
            r.spec_conversion() == conversion,
    {
        let mut r = Self::default();
        r.conversion = conversion;
        r
    }
}

impl ReadPolicy {
    /// A copy of this policy.
    pub fn copied(&self) -> (r: Self)
        ensures
            r == *self,
    {
        ReadPolicy {
            conversion: self.conversion.clone(),
            interpolation_sources: self.interpolation_sources,
            max_interpolation_depth: self.max_interpolation_depth,
            max_interpolation_expansions: self.max_interpolation_expansions,
            max_interpolation_output_bytes: self.max_interpolation_output_bytes,
        }
    }
}

impl Default for ReadPolicy {
    /// Strict conversion with bounded, configuration-only interpolation.
    fn default() -> (r: Self)
        ensures
            r.is_default(),
    {
        ReadPolicy {
            conversion: default_conversion_policy(),
            interpolation_sources: InterpolationSources::ConfigOnly,
            max_interpolation_depth: DEFAULT_MAX_SUBSTITUTION_DEPTH,
            max_interpolation_expansions: DEFAULT_MAX_SUBSTITUTION_EXPANSIONS,
            max_interpolation_output_bytes: DEFAULT_MAX_SUBSTITUTION_OUTPUT_BYTES,
        }
    }
}

impl ReadOptions {
    /// Environment fallback is enabled, with the default interpolation
    /// limits.
    pub open spec fn has_default_interpolation(&self) -> bool {
        &&& self.spec_environment_fallback_enabled()
        &&& self.spec_max_interpolation_depth() == DEFAULT_MAX_SUBSTITUTION_DEPTH
        &&& self.spec_max_interpolation_expansions() == DEFAULT_MAX_SUBSTITUTION_EXPANSIONS
        &&& self.spec_max_interpolation_output_bytes() == DEFAULT_MAX_SUBSTITUTION_OUTPUT_BYTES
    }

    /// The default options: the default interpolation settings, and a
    /// strict conversion policy that neither trims strings nor treats blank
    /// ones as missing.
    pub open spec fn is_default(&self) -> bool {
        &&& self.has_default_interpolation()
        &&& !trims_strings(self.spec_conversion())
        &&& !blank_strings_are_missing(self.spec_conversion())
    }

    /// Options with environment-variable style conversion (strings are
    /// trimmed and blank ones count as missing) and otherwise the defaults.
    pub fn env_friendly() -> (r: Self)
        ensures
            r.has_default_interpolation(),
            trims_strings(r.spec_conversion()),
            blank_strings_are_missing(r.spec_conversion()),
    {
        let mut r = Self::default();
        r.conversion = env_friendly_conversion_policy();
        r
    }

    /// Default options with the given conversion policy.
    pub fn from_conversion(conversion: ConversionPolicy) -> (r: Self)
        ensures
            r.has_default_interpolation(),
            r.spec_conversion() == conversion,
    {
        let mut r = Self::default();
        r.conversion = conversion;
        r
    }
}

impl Default for ReadOptions {
    /// Strict conversion, environment fallback and the default limits.
    fn default() -> (r: Self)
        ensures
            r.is_default(),
    {
        ReadOptions {
            conversion: default_conversion_policy(),
            environment_fallback_enabled: true,
            max_interpolation_depth: DEFAULT_MAX_SUBSTITUTION_DEPTH,
            max_interpolation_expansions: DEFAULT_MAX_SUBSTITUTION_EXPANSIONS,
            max_interpolation_output_bytes: DEFAULT_MAX_SUBSTITUTION_OUTPUT_BYTES,
        }
    }
}

impl ConfigReadOptions {
    /// Options with environment-variable style conversion (strings are
    /// trimmed and blank ones count as missing) and the default substitution
    /// policy (environment fallback stays disabled).
    pub fn env_friendly() -> (r: Self)
        ensures
            trims_strings(r.spec_conversion()),
            blank_strings_are_missing(r.spec_conversion()),
            r.spec_substitution() == VariableSubstitutionOptions::spec_default(),
    {
        ConfigReadOptions {
            conversion: env_friendly_conversion_policy(),
            substitution: VariableSubstitutionOptions::default(),
        }
    }

    /// Options with the given conversion policy and the default substitution
    /// policy.
    pub fn from_conversion(conversion: ConversionPolicy) -> (r: Self)
        ensures
            r.spec_conversion() == conversion,
            r.spec_substitution() == VariableSubstitutionOptions::spec_default(),
    {
        ConfigReadOptions { conversion, substitution: VariableSubstitutionOptions::default() }
    }
}

impl Default for ConfigReadOptions {
    /// Strict conversion with the default substitution policy.
    fn default() -> (r: Self)
        ensures
            !trims_strings(r.spec_conversion()),
            !blank_strings_are_missing(r.spec_conversion()),
            r.spec_substitution() == VariableSubstitutionOptions::spec_default(),
    {
        ConfigReadOptions {
            conversion: default_conversion_policy(),
            substitution: VariableSubstitutionOptions::default(),
        }
    }
}

} // verus!
