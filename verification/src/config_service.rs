//! The configuration use cases' decisions: what is loaded, what is written back, and in
//! which normalized form. Reading and writing the stored JSON is the caller's part.
use vstd::prelude::*;

use crate::domain::config::{config_view, migrated, AppConfig, CURRENT_CONFIG_SCHEMA_VERSION};
use crate::text::str_eq;

verus! {

/// The key the configuration is stored under.
pub const APP_CONFIG_KEY: &'static str = "app.settings";

/// What loading settles on: the configuration to use, and whether it must be written back.
#[derive(Debug)]
pub struct ConfigLoadPlan {
    pub config: AppConfig,
    pub persist: bool,
}

fn same_config(a: &AppConfig, b: &AppConfig) -> (r: bool)
    ensures
        r == (config_view(*a) == config_view(*b)),
{
    a.schema_version == b.schema_version && str_eq(a.theme.as_str(), b.theme.as_str()) && str_eq(
        a.language.as_str(),
        b.language.as_str(),
    ) && a.auto_start == b.auto_start
}

pub struct ConfigService;

impl ConfigService {
    /// Nothing stored means the defaults, written back; a stored configuration is migrated,
    /// and written back only when migration changed it.
    pub fn plan_load(stored: Option<AppConfig>) -> (r: ConfigLoadPlan)
        ensures
            match stored {
                None => {
                    &&& config_view(r.config) == (CURRENT_CONFIG_SCHEMA_VERSION, "dark"@, "zh-CN"@, true)
                    &&& r.persist
                },
                Some(config) => {
                    &&& config_view(r.config) == migrated(config_view(config))
                    &&& r.persist == (migrated(config_view(config)) != config_view(config))
                },
            },
    {
        match stored {
            None => ConfigLoadPlan { config: AppConfig::default(), persist: true },
            Some(config) => {
                let original = config.clone();
                let normalized = config.migrate();
                let persist = !same_config(&normalized, &original);
                ConfigLoadPlan { config: normalized, persist }
            },
        }
    }

    /// The form a configuration is saved in: migrated.
    pub fn normalize_for_save(config: &AppConfig) -> (r: AppConfig)
        ensures
            config_view(r) == migrated(config_view(*config)),
    {
        config.clone().migrate()
    }
}

} // verus!
