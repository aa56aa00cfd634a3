//! Configuration management: canonical keys and paths, a keyed property
//! store with final-value protection, scoped read-only sections, read
//! policies, and the validation rules of the persisted wire format.

pub mod text;

pub mod key;
pub mod error;
pub mod property;
pub mod entries;
pub mod config;
pub mod wire;
pub mod section;
pub mod structured;
pub mod configured;
pub mod options;
pub mod laws;
pub mod admission;
pub mod budget;
pub mod input_budget;
pub mod scalar_text;
pub mod missing;
pub mod deserialize_plan;

pub use config::Config;
pub use config::ConfigBuilder;
pub use configured::Configurable;
pub use configured::Configured;
pub use error::ConfigError;
pub use error::ConfigErrorKind;
pub use key::ConfigKey;
pub use key::ConfigPath;
pub use key::ConfigPathViolation;
pub use options::ConfigReadOptions;
pub use options::InterpolationSources;
pub use options::ReadOptions;
pub use options::ReadPolicy;
pub use options::VariableSubstitutionOptions;
pub use property::Property;
pub use section::ConfigSection;
pub use wire::ConfigWireLimitKind;
pub use wire::ConfigWireLimits;
pub use wire::ConfigWireLimitsBuilder;
