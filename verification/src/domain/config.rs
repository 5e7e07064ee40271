//! User-editable application configuration.
use vstd::prelude::*;

use crate::text::{is_blank, is_blank_seq, str_eq};

verus! {

pub const CURRENT_CONFIG_SCHEMA_VERSION: u32 = 1;

/// The themes the desktop shell can render.
pub open spec fn is_supported_theme(theme: Seq<char>) -> bool {
    theme == "dark"@ || theme == "light"@ || theme == "system"@
}

/// User-editable application configuration persisted as JSON.
#[derive(Debug, PartialEq, Eq)]
pub struct AppConfig {
    pub schema_version: u32,
    pub theme: String,
    pub language: String,
    pub auto_start: bool,
}

pub fn default_theme() -> (r: String)
    ensures
        r@ == "dark"@,
{
    "dark".to_owned()
}

pub fn default_language() -> (r: String)
    ensures
        r@ == "zh-CN"@,
{
    "zh-CN".to_owned()
}

pub fn default_auto_start() -> (r: bool)
    ensures
        r,
{
    true
}

/// A configuration as plain values: schema version, theme, language, auto start.
pub open spec fn config_view(config: AppConfig) -> (u32, Seq<char>, Seq<char>, bool) {
    (config.schema_version, config.theme@, config.language@, config.auto_start)
}

/// What migration makes of a configuration: the current schema at least, a supported theme
/// (dark otherwise) and a language that is not blank (zh-CN otherwise).
pub open spec fn migrated(config: (u32, Seq<char>, Seq<char>, bool)) -> (u32, Seq<char>, Seq<char>, bool) {
    (
        if config.0 < CURRENT_CONFIG_SCHEMA_VERSION {
            CURRENT_CONFIG_SCHEMA_VERSION
        } else {
            config.0
        },
        if is_supported_theme(config.1) {
            config.1
        } else {
            "dark"@
        },
        if is_blank_seq(config.2) {
            "zh-CN"@
        } else {
            config.2
        },
        config.3,
    )
}

/// Migrating twice changes nothing more than migrating once.
pub proof fn lemma_migrate_idempotent(config: (u32, Seq<char>, Seq<char>, bool))
    ensures
        migrated(migrated(config)) == migrated(config),
{
    reveal_strlit("dark");
    reveal_strlit("zh-CN");
    assert(is_supported_theme("dark"@));
    assert(!is_blank_seq("zh-CN"@)) by {
        assert(crate::text::trim_start_seq("zh-CN"@) == "zh-CN"@);
        assert(crate::text::trim_end_seq("zh-CN"@) == "zh-CN"@);
    }
}

/// The supported themes are exactly `dark`, `light` and `system`: migration keeps each of
/// them as it is, and puts `dark` in place of any other theme.
pub proof fn lemma_migrate_keeps_supported_themes(config: (u32, Seq<char>, Seq<char>, bool))
    ensures
        config.1 == "dark"@ || config.1 == "light"@ || config.1 == "system"@ ==> migrated(
            config,
        ).1 == config.1,
        config.1 != "dark"@ && config.1 != "light"@ && config.1 != "system"@ ==> migrated(
            config,
        ).1 == "dark"@,
{
}

/// Whether a configuration is already in its migrated, normalized form.
pub open spec fn is_normalized(config: AppConfig) -> bool {
    &&& config.schema_version >= CURRENT_CONFIG_SCHEMA_VERSION
    &&& is_supported_theme(config.theme@)
    &&& !is_blank_seq(config.language@)
}

impl AppConfig {
    /// Upgrades older configuration payloads and normalizes unsupported values.
    pub fn migrate(self) -> (r: Self)
        ensures
            r.schema_version == (if self.schema_version < CURRENT_CONFIG_SCHEMA_VERSION {
                CURRENT_CONFIG_SCHEMA_VERSION
            } else {
                self.schema_version
            }),
            r.theme@ == (if is_supported_theme(self.theme@) {
                self.theme@
            } else {
                "dark"@
            }),
            r.language@ == (if is_blank_seq(self.language@) {
                "zh-CN"@
            } else {
                self.language@
            }),
            r.auto_start == self.auto_start,
            config_view(r) == migrated(config_view(self)),
    {
        let mut config = self;
        if config.schema_version < CURRENT_CONFIG_SCHEMA_VERSION {
            config.schema_version = CURRENT_CONFIG_SCHEMA_VERSION;
        }
        let theme = config.theme.as_str();
        if !(str_eq(theme, "dark") || str_eq(theme, "light") || str_eq(theme, "system")) {
            config.theme = default_theme();
        }
        if is_blank(config.language.as_str()) {
            config.language = default_language();
        }
        config
    }
}

impl Default for AppConfig {
    fn default() -> (r: Self)
        ensures
            r.schema_version == CURRENT_CONFIG_SCHEMA_VERSION,
            r.theme@ == "dark"@,
            r.language@ == "zh-CN"@,
            r.auto_start,
    {
        Self {
            schema_version: CURRENT_CONFIG_SCHEMA_VERSION,
            theme: default_theme(),
            language: default_language(),
            auto_start: default_auto_start(),
        }
    }
}

impl Clone for AppConfig {
    fn clone(&self) -> (r: Self)
        ensures
            r == *self,
    {
        Self {
            schema_version: self.schema_version,
            theme: self.theme.clone(),
            language: self.language.clone(),
            auto_start: self.auto_start,
        }
    }
}

} // verus!
