//! Objects that carry a configuration.

use vstd::prelude::*;

use crate::config::Config;

verus! {

/// An object that holds a configuration and can be told when it changes.
pub trait Configurable {
    /// The configuration the object holds.
    spec fn spec_config(&self) -> Config;

    /// Returns the configuration.
    fn config(&self) -> (r: &Config)
        ensures
            *r == self.spec_config(),
    ;

    /// Returns mutable access to the configuration.
    fn config_mut(&mut self) -> (r: &mut Config)
        ensures
            *r == old(self).spec_config(),
            final(self).spec_config() == *final(r),
    ;

    /// Replaces the configuration.
    fn set_config(&mut self, config: Config)
        ensures
            final(self).spec_config() == config,
    ;

    /// Called after the configuration was replaced; does nothing unless
    /// overridden.
    fn on_config_changed(&mut self) {
    }
}

/// A plain holder of a configuration.
#[derive(Debug)]
pub struct Configured {
    config: Config,
}

impl Configured {
    /// A holder of an empty configuration.
    pub fn new() -> (r: Self)
        ensures
            r.spec_config()@ == Map::<Seq<char>, crate::property::Property>::empty(),
            r.spec_config().spec_description() is None,
            r.spec_config().spec_read_policy().is_default(),
    {
        Configured { config: Config::new() }
    }

    /// A holder of `config`.
    pub fn with_config(config: Config) -> (r: Self)
        ensures
            r.spec_config() == config,
    {
        Configured { config }
    }
}

impl Configurable for Configured {
    /// The held configuration.
    closed spec fn spec_config(&self) -> Config {
        self.config
    }

    fn config(&self) -> (r: &Config) {
        &self.config
    }

    fn config_mut(&mut self) -> (r: &mut Config) {
        &mut self.config
    }

    fn set_config(&mut self, config: Config) {
        self.config = config;
        self.on_config_changed();
    }

    fn on_config_changed(&mut self)
        ensures
            final(self).spec_config() == old(self).spec_config(),
    {
    }
}

impl Clone for Configured {
    /// A holder of a copy of the configuration.
    fn clone(&self) -> (r: Self)
        ensures
            r.spec_config()@ == self.spec_config()@,
            r.spec_config().same_settings(self.spec_config()),
    {
        Configured { config: self.config.clone() }
    }
}

impl Default for Configured {
    /// A holder of an empty configuration.
    fn default() -> (r: Self)
        ensures
            r.spec_config()@ == Map::<Seq<char>, crate::property::Property>::empty(),
            r.spec_config().spec_description() is None,
            r.spec_config().spec_read_policy().is_default(),
    {
        Configured::new()
    }
}

} // verus!
