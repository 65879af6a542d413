//! Config persistence: the in-memory cache in front of the encrypted file.
//!
//! Reading and writing the file is done by the caller; this type decides
//! when the file needs to be read and what a load yields.

use vstd::prelude::*;

use crate::config::{is_default_config, AppConfig};

verus! {

/// Holds the last loaded or saved configuration.
pub struct ConfigManager {
    cached: Option<AppConfig>,
}

impl ConfigManager {
    /// The cached configuration, if any.
    pub closed spec fn cache(&self) -> Option<AppConfig> {
        self.cached
    }

    /// A manager with an empty cache.
    pub fn new() -> (m: ConfigManager)
        ensures
            m.cache() is None,
    {
        ConfigManager { cached: None }
    }

    /// The cached configuration; `None` means the file must be read.
    pub fn cached_config(&self) -> (r: Option<AppConfig>)
        ensures
            r == self.cache(),
    {
        match &self.cached {
            Some(c) => Some(c.clone()),
            None => None,
        }
    }

    /// Completes a load from disk: `parsed` is the configuration read from
    /// the file, or `None` when the file was empty or absent, which yields
    /// the defaults.  The result is cached.
    pub fn finish_load(&mut self, parsed: Option<AppConfig>) -> (c: AppConfig)
        ensures
            parsed matches Some(p) ==> c == p,
            parsed is None ==> is_default_config(c),
            final(self).cache() == Some(c),
    {
        let c = match parsed {
            Some(p) => p,
            None => AppConfig::default(),
        };
        self.cached = Some(c.clone());
        c
    }

    /// Records a configuration that was written to disk.
    pub fn finish_save(&mut self, config: &AppConfig)
        ensures
            final(self).cache() == Some(*config),
    {
        self.cached = Some(config.clone());
    }

    /// Clears the in-memory cache (forces the next load to read from disk).
    pub fn invalidate_cache(&mut self)
        ensures
            final(self).cache() is None,
    {
        self.cached = None;
    }
}

impl Default for ConfigManager {
    fn default() -> (m: ConfigManager)
        ensures
            m.cache() is None,
    {
        ConfigManager::new()
    }
}

} // verus!
