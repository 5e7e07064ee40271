//! Plugin identifiers, manifests and lifecycle snapshots.
use vstd::prelude::*;

verus! {

pub const PLUGIN_API_VERSION: u32 = 1;

pub const PLUGIN_MANIFEST_FILE_NAME: &'static str = "plugin.json";

pub const PLUGIN_API_VERSION_EXPORT: &'static str = "shendesk_plugin_api_version";

pub const PLUGIN_ENABLE_EXPORT: &'static str = "shendesk_on_enable";

pub const PLUGIN_DISABLE_EXPORT: &'static str = "shendesk_on_disable";

#[derive(Debug, PartialEq, Eq, PartialOrd, Ord, Hash)]
pub struct PluginId(String);

impl View for PluginId {
    type V = Seq<char>;

    closed spec fn view(&self) -> Seq<char> {
        self.0@
    }
}

impl PluginId {
    pub fn new(value: &str) -> (r: Self)
        ensures
            r@ == value@,
    {
        PluginId(value.to_owned())
    }

    pub fn from_string(value: String) -> (r: Self)
        ensures
            r@ == value@,
    {
        PluginId(value)
    }

    pub fn as_str(&self) -> (r: &str)
        ensures
            r@ == self@,
    {
        self.0.as_str()
    }
}

impl Clone for PluginId {
    fn clone(&self) -> (r: Self)
        ensures
            r == *self,
    {
        PluginId(self.0.clone())
    }
}

#[derive(Debug, PartialEq, Eq)]
pub struct PluginCommand {
    pub name: String,
    pub export: String,
    pub description: Option<String>,
}

pub fn clone_optional_text(value: &Option<String>) -> (r: Option<String>)
    ensures
        r == *value,
{
    match value {
        Some(text) => Some(text.clone()),
        None => None,
    }
}

impl Clone for PluginCommand {
    fn clone(&self) -> (r: Self)
        ensures
            r == *self,
    {
        PluginCommand {
            name: self.name.clone(),
            export: self.export.clone(),
            description: clone_optional_text(&self.description),
        }
    }
}

#[derive(Debug, PartialEq, Eq)]
pub struct PluginManifest {
    pub api_version: u32,
    pub id: PluginId,
    pub name: String,
    pub version: String,
    pub entrypoint: String,
    pub description: Option<String>,
    pub commands: Vec<PluginCommand>,
}

/// A manifest as a value: its command list taken as a sequence.
pub struct PluginManifestView {
    pub api_version: u32,
    pub id: PluginId,
    pub name: String,
    pub version: String,
    pub entrypoint: String,
    pub description: Option<String>,
    pub commands: Seq<PluginCommand>,
}

impl View for PluginManifest {
    type V = PluginManifestView;

    open spec fn view(&self) -> PluginManifestView {
        PluginManifestView {
            api_version: self.api_version,
            id: self.id,
            name: self.name,
            version: self.version,
            entrypoint: self.entrypoint,
            description: self.description,
            commands: self.commands@,
        }
    }
}

impl Clone for PluginManifest {
    fn clone(&self) -> (r: Self)
        ensures
            r@ == self@,
    {
        let commands = self.commands.clone();
        assert forall|i: int| 0 <= i < commands.len() implies commands@[i] == self.commands@[i] by {
            assert(cloned::<PluginCommand>(self.commands[i], commands[i]));
        }
        assert(commands@ =~= self.commands@);
        PluginManifest {
            api_version: self.api_version,
            id: self.id.clone(),
            name: self.name.clone(),
            version: self.version.clone(),
            entrypoint: self.entrypoint.clone(),
            description: clone_optional_text(&self.description),
            commands,
        }
    }
}

#[derive(Debug, Clone, Copy, PartialEq, Eq, Structural)]
pub enum PluginStatus {
    Disabled,
    Enabled,
}

#[derive(Debug, PartialEq, Eq)]
pub struct PluginSnapshot {
    pub manifest: PluginManifest,
    pub status: PluginStatus,
    pub installed_at_unix_ms: u64,
    pub updated_at_unix_ms: u64,
}

/// A snapshot as a value.
pub struct PluginSnapshotView {
    pub manifest: PluginManifestView,
    pub status: PluginStatus,
    pub installed_at_unix_ms: u64,
    pub updated_at_unix_ms: u64,
}

impl View for PluginSnapshot {
    type V = PluginSnapshotView;

    open spec fn view(&self) -> PluginSnapshotView {
        PluginSnapshotView {
            manifest: self.manifest@,
            status: self.status,
            installed_at_unix_ms: self.installed_at_unix_ms,
            updated_at_unix_ms: self.updated_at_unix_ms,
        }
    }
}

impl Clone for PluginSnapshot {
    fn clone(&self) -> (r: Self)
        ensures
            r@ == self@,
    {
        PluginSnapshot {
            manifest: self.manifest.clone(),
            status: self.status,
            installed_at_unix_ms: self.installed_at_unix_ms,
            updated_at_unix_ms: self.updated_at_unix_ms,
        }
    }
}

#[derive(Debug, PartialEq, Eq)]
pub struct PluginExecution {
    pub plugin_id: PluginId,
    pub command: String,
    pub return_code: i32,
    pub fuel_consumed: u64,
}

impl Clone for PluginExecution {
    fn clone(&self) -> (r: Self)
        ensures
            r == *self,
    {
        PluginExecution {
            plugin_id: self.plugin_id.clone(),
            command: self.command.clone(),
            return_code: self.return_code,
            fuel_consumed: self.fuel_consumed,
        }
    }
}

} // verus!
