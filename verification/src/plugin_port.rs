//! The two ports of the plugin system: the repository that persists installed packages
//! and their lifecycle state, and the sandboxed runtime that executes their modules.
use vstd::prelude::*;

use crate::domain::plugin::{PluginId, PluginManifest, PluginManifestView, PluginSnapshot, PluginSnapshotView, PluginStatus};
use crate::plugin_error::{PluginServiceError, PluginServiceErrorKind};
use crate::plugin_validation::{is_valid_manifest, validate_manifest};
use crate::task_id::{append_padded_decimal, padded_decimal};
use crate::text::str_eq;

verus! {

/// A plugin package as read from disk: its manifest and its WebAssembly module.
#[derive(Debug)]
pub struct PluginPackage {
    pub manifest: PluginManifest,
    pub module: Vec<u8>,
}

/// A package as a value.
pub struct PluginPackageView {
    pub manifest: PluginManifestView,
    pub module: Seq<u8>,
}

impl View for PluginPackage {
    type V = PluginPackageView;

    open spec fn view(&self) -> PluginPackageView {
        PluginPackageView { manifest: self.manifest@, module: self.module@ }
    }
}

/// What one call into a plugin export returned.
#[derive(Debug, Clone, Copy, PartialEq, Eq, Structural)]
pub struct PluginCallResult {
    pub return_code: i32,
    pub fuel_consumed: u64,
}

/// Whether `listed` holds each installed plugin exactly once, as `installed` has it.
pub open spec fn lists_installed(
    listed: Seq<PluginSnapshot>,
    installed: Map<Seq<char>, PluginSnapshotView>,
) -> bool {
    &&& forall|i: int|
        0 <= i < listed.len() ==> installed.contains_key(#[trigger] listed[i].manifest.id@)
            && installed[listed[i].manifest.id@] == listed[i]@
    &&& forall|i: int, j: int|
        0 <= i < j < listed.len() ==> #[trigger] listed[i].manifest.id@ != #[trigger] listed[j].manifest.id@
    &&& forall|id: Seq<char>|
        #[trigger] installed.contains_key(id) ==> exists|i: int|
            0 <= i < listed.len() && #[trigger] listed[i].manifest.id@ == id
}

/// Persistence of installed plugin packages and their lifecycle state, keyed by plugin id.
///
/// The method contracts hold of an implementation whose `obeys_repository_contract` is
/// `true`; a verified implementation defines it so, together with its model functions. An
/// implementation outside verified code keeps the default `false`, and then the contracts
/// claim nothing of it.
pub trait PluginRepository {
    /// Whether this implementation keeps the method contracts below.
    closed spec fn obeys_repository_contract() -> bool {
        false
    }

    /// The installed plugins, by id.
    closed spec fn installed(&self) -> Map<Seq<char>, PluginSnapshotView> {
        Map::empty()
    }

    /// The module bytes of the installed plugins, by id.
    closed spec fn modules(&self) -> Map<Seq<char>, Seq<u8>> {
        Map::empty()
    }

    /// The packages that can be read, by manifest path.
    closed spec fn packages(&self) -> Map<Seq<char>, PluginPackageView> {
        Map::empty()
    }

    /// What the implementation keeps true between calls.
    closed spec fn inv(&self) -> bool {
        true
    }

    /// Reads the package whose manifest is at `manifest_path`; refused with `NotFound` when
    /// there is none.
    fn read_package(&self, manifest_path: &str) -> (r: Result<PluginPackage, PluginServiceError>)
        requires
            Self::obeys_repository_contract() ==> self.inv(),
        ensures
            Self::obeys_repository_contract() ==> match self.packages().get(manifest_path@) {
                Some(package) => r matches Ok(read) && read@ == package,
                None => r matches Err(e) && e.spec_kind() == PluginServiceErrorKind::NotFound,
            },
    ;

    /// Installs `package` as a disabled plugin; refused with `AlreadyInstalled` when its id is
    /// installed already.
    fn install(&mut self, package: PluginPackage) -> (r: Result<PluginSnapshot, PluginServiceError>)
        requires
            Self::obeys_repository_contract() ==> old(self).inv(),
        ensures
            Self::obeys_repository_contract() ==> {
                &&& final(self).inv()
                &&& final(self).packages() == old(self).packages()
                &&& (r is Ok <==> !old(self).installed().contains_key(package.manifest.id@))
                &&& match r {
                    Ok(snapshot) => {
                        &&& snapshot@.manifest == package.manifest@
                        &&& snapshot@.status == PluginStatus::Disabled
                        &&& final(self).installed() == old(self).installed().insert(
                            package.manifest.id@,
                            snapshot@,
                        )
                        &&& final(self).modules() == old(self).modules().insert(
                            package.manifest.id@,
                            package.module@,
                        )
                    },
                    Err(e) => {
                        &&& e.spec_kind() == PluginServiceErrorKind::AlreadyInstalled
                        &&& final(self).installed() == old(self).installed()
                        &&& final(self).modules() == old(self).modules()
                    },
                }
            },
    ;

    /// Every installed plugin, each once.
    fn list(&self) -> (r: Result<Vec<PluginSnapshot>, PluginServiceError>)
        requires
            Self::obeys_repository_contract() ==> self.inv(),
        ensures
            Self::obeys_repository_contract() ==> (r matches Ok(listed) && lists_installed(
                listed@,
                self.installed(),
            )),
    ;

    /// The plugin installed under `plugin_id`, if any.
    fn get(&self, plugin_id: &PluginId) -> (r: Result<Option<PluginSnapshot>, PluginServiceError>)
        requires
            Self::obeys_repository_contract() ==> self.inv(),
        ensures
            Self::obeys_repository_contract() ==> (r matches Ok(found) && match found {
                Some(snapshot) => self.installed().contains_key(plugin_id@) && snapshot@
                    == self.installed()[plugin_id@] && snapshot.manifest.id@ == plugin_id@,
                None => !self.installed().contains_key(plugin_id@),
            }),
    ;

    /// The module bytes of the plugin installed under `plugin_id`; refused with `NotFound`
    /// when there is none.
    fn module_bytes(&self, plugin_id: &PluginId) -> (r: Result<Vec<u8>, PluginServiceError>)
        requires
            Self::obeys_repository_contract() ==> self.inv(),
        ensures
            Self::obeys_repository_contract() ==> {
                &&& (r is Ok <==> self.installed().contains_key(plugin_id@))
                &&& match r {
                    Ok(module) => self.modules().contains_key(plugin_id@) && module@
                        == self.modules()[plugin_id@],
                    Err(e) => e.spec_kind() == PluginServiceErrorKind::NotFound,
                }
            },
    ;

    /// Records `status` for the plugin installed under `plugin_id`; its update time never
    /// moves backwards. Refused with `NotFound` when there is no such plugin.
    fn set_status(&mut self, plugin_id: &PluginId, status: PluginStatus) -> (r: Result<
        PluginSnapshot,
        PluginServiceError,
    >)
        requires
            Self::obeys_repository_contract() ==> old(self).inv(),
        ensures
            Self::obeys_repository_contract() ==> {
                &&& final(self).inv()
                &&& final(self).modules() == old(self).modules()
                &&& final(self).packages() == old(self).packages()
                &&& (r is Ok <==> old(self).installed().contains_key(plugin_id@))
                &&& match r {
                    Ok(snapshot) => {
                        &&& snapshot@.status == status
                        &&& snapshot@.manifest == old(self).installed()[plugin_id@].manifest
                        &&& snapshot@.installed_at_unix_ms == old(
                            self,
                        ).installed()[plugin_id@].installed_at_unix_ms
                        &&& snapshot@.updated_at_unix_ms >= old(
                            self,
                        ).installed()[plugin_id@].updated_at_unix_ms
                        &&& final(self).installed() == old(self).installed().insert(
                            plugin_id@,
                            snapshot@,
                        )
                    },
                    Err(e) => {
                        &&& e.spec_kind() == PluginServiceErrorKind::NotFound
                        &&& final(self).installed() == old(self).installed()
                    },
                }
            },
    ;

    /// Removes the plugin installed under `plugin_id`; `false` when there was none.
    fn remove(&mut self, plugin_id: &PluginId) -> (r: Result<bool, PluginServiceError>)
        requires
            Self::obeys_repository_contract() ==> old(self).inv(),
        ensures
            Self::obeys_repository_contract() ==> {
                &&& final(self).inv()
                &&& final(self).packages() == old(self).packages()
                &&& r == Ok::<bool, PluginServiceError>(old(self).installed().contains_key(plugin_id@))
                &&& final(self).installed() == old(self).installed().remove(plugin_id@)
                &&& final(self).modules() == old(self).modules().remove(plugin_id@)
            },
    ;
}

/// Compilation, sandboxing and execution of plugin modules.
///
/// The method contracts hold of an implementation whose `obeys_runtime_contract` is `true`:
/// one whose answers are a function of the module bytes, the manifest and the export, as the
/// model functions below give them. An implementation outside verified code keeps the default
/// `false`, and then the contracts claim nothing of it.
pub trait PluginRuntime {
    /// Whether this implementation keeps the method contracts below.
    closed spec fn obeys_runtime_contract() -> bool {
        false
    }

    /// Whether `module` compiles, keeps to the sandbox and fits `manifest`.
    closed spec fn accepts(&self, module: Seq<u8>, manifest: PluginManifestView) -> bool {
        false
    }

    /// What calling `export` of `module` returns; `None` when the call fails.
    closed spec fn call_outcome(&self, module: Seq<u8>, export: Seq<char>) -> Option<PluginCallResult> {
        None
    }

    /// What calling `export` of `module`, if the module has it, returns: `Some(None)` when it
    /// has no such export, and `None` when the call fails.
    closed spec fn optional_call_outcome(&self, module: Seq<u8>, export: Seq<char>) -> Option<
        Option<PluginCallResult>,
    > {
        None
    }

    /// Checks that `module` compiles, keeps to the sandbox and fits `manifest`.
    fn validate(&self, module: &[u8], manifest: &PluginManifest) -> (r: Result<(), PluginServiceError>)
        ensures
            Self::obeys_runtime_contract() ==> (r is Ok <==> self.accepts(module@, manifest@)),
            Self::obeys_runtime_contract() ==> (r matches Err(e) ==> e.spec_kind()
                == PluginServiceErrorKind::RuntimeRejected),
    ;

    /// Calls the export named `export`, which must exist.
    fn call(&self, module: &[u8], export: &str) -> (r: Result<PluginCallResult, PluginServiceError>)
        ensures
            Self::obeys_runtime_contract() ==> match self.call_outcome(module@, export@) {
                Some(result) => r == Ok::<PluginCallResult, PluginServiceError>(result),
                None => r matches Err(e) && e.spec_kind() == PluginServiceErrorKind::ExecutionFailed,
            },
    ;

    /// Calls the export named `export` if the module has one; `None` when it has none.
    fn call_optional(&self, module: &[u8], export: &str) -> (r: Result<
        Option<PluginCallResult>,
        PluginServiceError,
    >)
        ensures
            Self::obeys_runtime_contract() ==> match self.optional_call_outcome(module@, export@) {
                Some(result) => r == Ok::<Option<PluginCallResult>, PluginServiceError>(result),
                None => r matches Err(e) && e.spec_kind() == PluginServiceErrorKind::ExecutionFailed,
            },
    ;
}

/// Whether a lifecycle hook call came back as success: the call went through, and the
/// export was absent or returned 0.
pub open spec fn hook_passes(outcome: Option<Option<PluginCallResult>>) -> bool {
    match outcome {
        Some(None) => true,
        Some(Some(call)) => call.return_code == 0,
        None => false,
    }
}

/// Whether a lifecycle hook call returned a nonzero code.
pub open spec fn hook_returned_failure(outcome: Option<Option<PluginCallResult>>) -> bool {
    outcome matches Some(Some(call)) && call.return_code != 0
}


/// The text of `value` in decimal, with a leading `-` when negative.
pub open spec fn signed_decimal(value: int) -> Seq<char> {
    if value < 0 {
        "-"@ + padded_decimal((-value) as nat, 1)
    } else {
        padded_decimal(value as nat, 1)
    }
}

/// The message of a lifecycle hook that returned `code`.
pub open spec fn hook_failure_message(export: Seq<char>, code: i32) -> Seq<char> {
    "plugin lifecycle export "@ + export + " returned "@ + signed_decimal(code as int)
}

/// A lifecycle hook succeeds when the export is absent or returns 0.
pub fn ensure_hook_succeeded(result: Option<PluginCallResult>, export: &str) -> (r: Result<
    (),
    PluginServiceError,
>)
    ensures
        r is Ok <==> (result matches Some(call) ==> call.return_code == 0),
        r matches Err(e) ==> {
            &&& e.spec_kind() == PluginServiceErrorKind::ExecutionFailed
            &&& e.spec_message() == hook_failure_message(export@, result->0.return_code)
        },
{
    match result {
        Some(call) => {
            if call.return_code != 0 {
                proof {
                    reveal_strlit("plugin lifecycle export ");
                    reveal_strlit(" returned ");
                    reveal_strlit("-");
                }
                let mut message = String::from_str("plugin lifecycle export ");
                message.append(export);
                message.append(" returned ");
                let magnitude: u64 = if call.return_code < 0 {
                    message.append("-");
                    (0 - (call.return_code as i64)) as u64
                } else {
                    call.return_code as u64
                };
                append_padded_decimal(&mut message, magnitude, 1);
                assert(message@ =~= hook_failure_message(export@, call.return_code));
                return Err(
                    PluginServiceError::with_message(PluginServiceErrorKind::ExecutionFailed, message),
                );
            }
            Ok(())
        },
        None => Ok(()),
    }
}

/// The error for a plugin id that is not installed.
pub fn not_found_error() -> (r: PluginServiceError)
    ensures
        r.spec_kind() == PluginServiceErrorKind::NotFound,
{
    PluginServiceError::new(PluginServiceErrorKind::NotFound, "plugin was not found")
}

/// The snapshot of a newly installed plugin: disabled, installed and updated at `now`.
pub fn installed_snapshot(manifest: PluginManifest, now: u64) -> (r: PluginSnapshot)
    ensures
        r@.manifest == manifest@,
        r.status == PluginStatus::Disabled,
        r.installed_at_unix_ms == now,
        r.updated_at_unix_ms == now,
{
    PluginSnapshot {
        manifest,
        status: PluginStatus::Disabled,
        installed_at_unix_ms: now,
        updated_at_unix_ms: now,
    }
}

/// The update time to record at clock reading `now`: never before the install time nor the
/// previous update time, even when the clock moved backwards.
pub fn next_updated_at(snapshot: &PluginSnapshot, now: u64) -> (r: u64)
    ensures
        r >= now,
        r >= snapshot.installed_at_unix_ms,
        r >= snapshot.updated_at_unix_ms,
        r == now || r == snapshot.installed_at_unix_ms || r == snapshot.updated_at_unix_ms,
{
    let mut latest = now;
    if snapshot.installed_at_unix_ms > latest {
        latest = snapshot.installed_at_unix_ms;
    }
    if snapshot.updated_at_unix_ms > latest {
        latest = snapshot.updated_at_unix_ms;
    }
    latest
}

/// A plugin found on disk is loaded only when its manifest is valid and it is stored under a
/// directory named after its id.
pub fn check_stored_plugin(directory_name: &str, manifest: &PluginManifest) -> (r: Result<
    (),
    PluginServiceError,
>)
    ensures
        r is Ok <==> (is_valid_manifest(manifest@) && directory_name@ == manifest.id@),
        !is_valid_manifest(manifest@) ==> (r matches Err(e) && e.spec_kind()
            == PluginServiceErrorKind::InvalidManifest),
{
    validate_manifest(manifest)?;
    if !str_eq(directory_name, manifest.id.as_str()) {
        return Err(
            PluginServiceError::invalid_manifest(
                "plugin directory does not match the manifest plugin id",
            ),
        );
    }
    Ok(())
}

/// A WebAssembly module in the binary format starts with `\0asm`.
pub open spec fn has_wasm_magic(module: Seq<u8>) -> bool {
    module.len() >= 4 && module[0] == 0u8 && module[1] == 0x61u8 && module[2] == 0x73u8
        && module[3] == 0x6du8
}

/// Only modules in the binary WebAssembly format are compiled.
pub fn check_wasm_binary(module: &[u8]) -> (r: Result<(), PluginServiceError>)
    ensures
        r is Ok <==> has_wasm_magic(module@),
        r matches Err(e) ==> e.spec_kind() == PluginServiceErrorKind::RuntimeRejected,
{
    if module.len() < 4 || module[0] != 0 || module[1] != 0x61 || module[2] != 0x73 || module[3]
        != 0x6d {
        return Err(
            PluginServiceError::runtime_rejected("plugin module must use the binary WebAssembly format"),
        );
    }
    Ok(())
}

/// A module's reported API version must be the one this host implements.
pub fn check_api_version(reported: i32) -> (r: Result<(), PluginServiceError>)
    ensures
        r is Ok <==> reported == crate::domain::plugin::PLUGIN_API_VERSION as i32,
        r matches Err(e) ==> e.spec_kind() == PluginServiceErrorKind::RuntimeRejected,
{
    if reported != 1 {
        return Err(PluginServiceError::runtime_rejected("plugin module reports another API version"));
    }
    Ok(())
}

/// Fuel used by a call: what it had before less what remains, never below zero.
pub fn fuel_consumed(before: u64, remaining: u64) -> (r: u64)
    ensures
        r == if remaining <= before {
            (before - remaining) as u64
        } else {
            0
        },
{
    before.saturating_sub(remaining)
}

} // verus!
