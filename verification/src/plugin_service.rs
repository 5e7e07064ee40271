//! The plugin lifecycle: install, enable, execute, disable and uninstall, each step checked
//! against the manifest contract and announced on the event bus.
use vstd::prelude::*;

use crate::domain::event::{AppEvent, AppEventView, EventEnvelopeView};
use crate::domain::plugin::{
    PluginCommand, PluginExecution, PluginId, PluginManifestView, PluginSnapshot, PluginSnapshotView, PluginStatus,
    PLUGIN_DISABLE_EXPORT, PLUGIN_ENABLE_EXPORT,
};
use crate::event_bus::EventBus;
use crate::plugin_error::{PluginServiceError, PluginServiceErrorKind};
use crate::plugin_port::{
    ensure_hook_succeeded, hook_passes, hook_returned_failure, lists_installed, not_found_error,
    PluginPackageView, PluginRepository, PluginRuntime,
};
use crate::plugin_validation::{
    is_valid_command_name, is_valid_manifest, is_valid_manifest_path, is_valid_plugin_id,
    validate_command_name, validate_manifest, validate_manifest_path, validate_module_size,
    validate_plugin_id, MAX_PLUGIN_MODULE_BYTES,
};
use crate::text::{str_eq, trim_seq};

verus! {

/// How many enabled plugins came back at startup, and how many were quarantined instead.
#[derive(Debug, Clone, Copy, PartialEq, Eq, Structural)]
pub struct PluginStartupReport {
    pub restored: usize,
    pub disabled_after_failure: usize,
}

impl Default for PluginStartupReport {
    fn default() -> (r: Self)
        ensures
            r.restored == 0,
            r.disabled_after_failure == 0,
    {
        PluginStartupReport { restored: 0, disabled_after_failure: 0 }
    }
}

/// Whether `manifest` declares a command named `name`.
pub open spec fn declares_command(commands: Seq<crate::domain::plugin::PluginCommand>, name: Seq<char>) -> bool {
    exists|i: int| 0 <= i < commands.len() && #[trigger] commands[i].name@ == name
}

/// Why installing `package` is refused before the runtime sees it, if it is: an invalid
/// manifest, an empty module, or a module over the size limit.
pub open spec fn package_refusal(package: PluginPackageView) -> Option<PluginServiceErrorKind> {
    if !is_valid_manifest(package.manifest) {
        Some(PluginServiceErrorKind::InvalidManifest)
    } else if package.module.len() == 0 {
        Some(PluginServiceErrorKind::InvalidManifest)
    } else if package.module.len() > MAX_PLUGIN_MODULE_BYTES {
        Some(PluginServiceErrorKind::PackageTooLarge)
    } else {
        None
    }
}

/// What an install from `path` can come to: `NotFound` without a package there, the package's
/// refusal when it has one, an error when its id is installed already, and on success the
/// package's own manifest.
pub open spec fn install_outcome_fits(
    packages: Map<Seq<char>, PluginPackageView>,
    path: Seq<char>,
    installed: Map<Seq<char>, PluginSnapshotView>,
    r: Result<PluginSnapshot, PluginServiceError>,
) -> bool {
    if !packages.contains_key(path) {
        r matches Err(e) && e.spec_kind() == PluginServiceErrorKind::NotFound
    } else {
        let package = packages[path];
        &&& package_refusal(package) matches Some(kind) ==> (r matches Err(e) && e.spec_kind()
            == kind)
        &&& installed.contains_key(package.manifest.id@) ==> r is Err
        &&& r matches Ok(snapshot) ==> snapshot@.manifest == package.manifest
    }
}

/// With a runtime that keeps its contract, an install of the package at `path` that passes
/// the package checks succeeds exactly when the runtime accepts the module and the id is new;
/// a module the runtime does not accept is refused with `RuntimeRejected`.
pub open spec fn install_decided<T: PluginRuntime>(
    runtime: T,
    packages: Map<Seq<char>, PluginPackageView>,
    path: Seq<char>,
    installed: Map<Seq<char>, PluginSnapshotView>,
    r: Result<PluginSnapshot, PluginServiceError>,
) -> bool {
    packages.contains_key(path) && package_refusal(packages[path]) is None ==> {
        &&& (r is Ok <==> (runtime.accepts(packages[path].module, packages[path].manifest)
            && !installed.contains_key(packages[path].manifest.id@)))
        &&& !runtime.accepts(packages[path].module, packages[path].manifest) ==> (r matches Err(e)
            && e.spec_kind() == PluginServiceErrorKind::RuntimeRejected)
    }
}

/// Whether a plugin with `module` and `manifest` may be enabled: the runtime accepts the
/// module and its enable hook passes.
pub open spec fn enable_allowed<T: PluginRuntime>(
    runtime: T,
    module: Seq<u8>,
    manifest: PluginManifestView,
) -> bool {
    runtime.accepts(module, manifest) && hook_passes(
        runtime.optional_call_outcome(module, PLUGIN_ENABLE_EXPORT@),
    )
}

/// Whether enabling fails because the enable hook returned a nonzero code.
pub open spec fn enable_hook_failed<T: PluginRuntime>(
    runtime: T,
    module: Seq<u8>,
    manifest: PluginManifestView,
) -> bool {
    runtime.accepts(module, manifest) && hook_returned_failure(
        runtime.optional_call_outcome(module, PLUGIN_ENABLE_EXPORT@),
    )
}

/// The export of the first command named `name`.
pub open spec fn first_command_export(commands: Seq<PluginCommand>, name: Seq<char>) -> Seq<char> {
    let i = choose|i: int|
        0 <= i < commands.len() && commands[i].name@ == name && forall|k: int|
            0 <= k < i ==> (#[trigger] commands[k]).name@ != name;
    commands[i].export@
}

/// The start of a lifecycle change to `target`: `NotFound` for an id that is not installed,
/// and a plugin already in `target` returned as it is.
pub open spec fn lifecycle_start_fits(
    installed: Map<Seq<char>, PluginSnapshotView>,
    id: Seq<char>,
    target: PluginStatus,
    r: Result<PluginSnapshot, PluginServiceError>,
) -> bool {
    &&& !installed.contains_key(id) ==> (r matches Err(e) && e.spec_kind()
        == PluginServiceErrorKind::NotFound)
    &&& installed.contains_key(id) && installed[id].status == target ==> (r matches Ok(snapshot)
        && snapshot@ == installed[id])
}

/// The position of the first command named `name`, if the manifest declares one.
pub fn find_command(commands: &Vec<PluginCommand>, name: &str) -> (r: Option<usize>)
    ensures
        match r {
            Some(i) => {
                &&& i < commands@.len()
                &&& commands@[i as int].name@ == name@
                &&& forall|k: int| 0 <= k < i ==> (#[trigger] commands@[k]).name@ != name@
            },
            None => !declares_command(commands@, name@),
        },
{
    let mut index: usize = 0;
    while index < commands.len()
        invariant
            0 <= index <= commands@.len(),
            forall|k: int| 0 <= k < index ==> (#[trigger] commands@[k]).name@ != name@,
        decreases commands@.len() - index,
    {
        if str_eq(commands[index].name.as_str(), name) {
            return Some(index);
        }
        index = index + 1;
    }
    None
}

/// The enabled plugins that a restart brings back: those the runtime still accepts and whose
/// enable hook passes.
pub open spec fn restorable_ids<T: PluginRuntime>(
    runtime: T,
    installed: Map<Seq<char>, PluginSnapshotView>,
    modules: Map<Seq<char>, Seq<u8>>,
) -> Set<Seq<char>> {
    enabled_ids(installed).filter(
        |id: Seq<char>| enable_allowed(runtime, modules[id], installed[id].manifest),
    )
}

/// The enabled plugins whose disable hook passes.
pub open spec fn stoppable_ids<T: PluginRuntime>(
    runtime: T,
    installed: Map<Seq<char>, PluginSnapshotView>,
    modules: Map<Seq<char>, Seq<u8>>,
) -> Set<Seq<char>> {
    enabled_ids(installed).filter(
        |id: Seq<char>| hook_passes(runtime.optional_call_outcome(modules[id], PLUGIN_DISABLE_EXPORT@)),
    )
}

/// The ids of the installed plugins that are enabled.
pub open spec fn enabled_ids(installed: Map<Seq<char>, PluginSnapshotView>) -> Set<Seq<char>> {
    installed.dom().filter(|id: Seq<char>| installed[id].status == PluginStatus::Enabled)
}

/// When every installed plugin is listed, the enabled ones form a finite set.
proof fn lemma_listed_enabled_finite(
    listed: Seq<PluginSnapshot>,
    installed: Map<Seq<char>, PluginSnapshotView>,
)
    requires
        lists_installed(listed, installed),
    ensures
        enabled_ids(installed).finite(),
{
    let ids = listed.map_values(|p: PluginSnapshot| p.manifest.id@);
    assert forall|id: Seq<char>| #[trigger] installed.dom().contains(id) implies ids.to_set().contains(
        id,
    ) by {
        let k = choose|k: int| 0 <= k < listed.len() && #[trigger] listed[k].manifest.id@ == id;
        assert(ids[k] == id);
    }
    vstd::seq_lib::seq_to_set_is_finite(ids);
    vstd::set_lib::lemma_set_subset_finite(ids.to_set(), installed.dom());
    vstd::set_lib::lemma_set_subset_finite(installed.dom(), enabled_ids(installed));
}

/// Uninstalling a plugin right after installing it leaves the installed plugins as they were:
/// installation adds exactly one new id, and removal takes exactly that id away.
pub proof fn lemma_install_then_uninstall(
    before: Map<Seq<char>, PluginSnapshotView>,
    id: Seq<char>,
    snapshot: PluginSnapshotView,
)
    requires
        !before.contains_key(id),
    ensures
        before.insert(id, snapshot).remove(id) == before,
{
    assert(before.insert(id, snapshot).remove(id) =~= before);
}

pub struct PluginService<R, T> {
    repository: R,
    runtime: T,
    event_bus: EventBus,
}

impl<R: PluginRepository, T: PluginRuntime> PluginService<R, T> {
    pub closed spec fn spec_repository(&self) -> R {
        self.repository
    }

    pub closed spec fn spec_runtime(&self) -> T {
        self.runtime
    }

    pub closed spec fn spec_event_bus(&self) -> EventBus {
        self.event_bus
    }

    /// The installed plugins, by id.
    pub open spec fn installed(&self) -> Map<Seq<char>, PluginSnapshotView> {
        self.spec_repository().installed()
    }

    /// Every event this service published, in order.
    pub open spec fn published(&self) -> Seq<AppEventView> {
        self.spec_event_bus().published().map_values(|envelope: EventEnvelopeView| envelope.event)
    }

    pub open spec fn wf(&self) -> bool {
        &&& self.spec_event_bus().wf()
        &&& R::obeys_repository_contract() ==> self.spec_repository().inv()
    }

    /// Nothing observable changed.
    pub open spec fn unchanged_from(&self, other: Self) -> bool {
        &&& self.installed() == other.installed()
        &&& self.spec_repository().modules() == other.spec_repository().modules()
        &&& self.published() == other.published()
    }

    pub fn new(repository: R, runtime: T, event_bus: EventBus) -> (r: Self)
        requires
            R::obeys_repository_contract() ==> repository.inv(),
            event_bus.wf(),
        ensures
            r.wf(),
            r.spec_repository() == repository,
            r.spec_runtime() == runtime,
            r.spec_event_bus() == event_bus,
    {
        PluginService { repository, runtime, event_bus }
    }

    pub fn repository(&self) -> (r: &R)
        ensures
            *r == self.spec_repository(),
    {
        &self.repository
    }

    pub fn runtime(&self) -> (r: &T)
        ensures
            *r == self.spec_runtime(),
    {
        &self.runtime
    }

    pub fn event_bus(&self) -> (r: &EventBus)
        ensures
            *r == self.spec_event_bus(),
    {
        &self.event_bus
    }

    fn publish(&mut self, event: AppEvent)
        requires
            old(self).wf(),
        ensures
            final(self).wf(),
            final(self).published() == old(self).published().push(event@),
            final(self).spec_repository() == old(self).spec_repository(),
            final(self).spec_runtime() == old(self).spec_runtime(),
    {
        let ghost before = self.event_bus.published();
        self.event_bus.publish(event);
        proof {
            let after = self.event_bus.published();
            assert(after.drop_last() == before);
            assert(after =~= before.push(after.last()));
            let f = |envelope: EventEnvelopeView| envelope.event;
            assert(after.map_values(f) =~= before.map_values(f).push(event@));
        }
    }

    /// Installs the package whose manifest is at `manifest_path`, as a disabled plugin. The
    /// package is checked (manifest, module size, then the runtime) before it is stored.
    pub fn install(&mut self, manifest_path: &str) -> (r: Result<PluginSnapshot, PluginServiceError>)
        requires
            old(self).wf(),
        ensures
            final(self).wf(),
            final(self).spec_runtime() == old(self).spec_runtime(),
            !is_valid_manifest_path(manifest_path@) ==> (r matches Err(e) && e.spec_kind()
                == PluginServiceErrorKind::InvalidInput),
            r is Err ==> final(self).published() == old(self).published(),
            R::obeys_repository_contract() && T::obeys_runtime_contract() && is_valid_manifest_path(
                manifest_path@,
            ) ==> install_decided(
                old(self).spec_runtime(),
                old(self).spec_repository().packages(),
                trim_seq(manifest_path@),
                old(self).installed(),
                r,
            ),
            R::obeys_repository_contract() ==> {
                &&& is_valid_manifest_path(manifest_path@) ==> install_outcome_fits(
                    old(self).spec_repository().packages(),
                    trim_seq(manifest_path@),
                    old(self).installed(),
                    r,
                )
                &&& match r {
                    Ok(snapshot) => {
                        let id = snapshot@.manifest.id@;
                        &&& is_valid_manifest_path(manifest_path@)
                        &&& is_valid_manifest(snapshot@.manifest)
                        &&& snapshot@.status == PluginStatus::Disabled
                        &&& !old(self).installed().contains_key(id)
                        &&& final(self).installed() == old(self).installed().insert(id, snapshot@)
                        &&& final(self).spec_repository().modules() == old(
                            self,
                        ).spec_repository().modules().insert(
                            id,
                            old(self).spec_repository().packages()[trim_seq(manifest_path@)].module,
                        )
                        &&& final(self).published() == old(self).published().push(
                            AppEventView::PluginInstalled { plugin: snapshot@ },
                        )
                    },
                    Err(_) => final(self).unchanged_from(*old(self)),
                }
            },
    {
        let manifest_path = validate_manifest_path(manifest_path)?;
        let package = self.repository.read_package(manifest_path.as_str())?;
        validate_manifest(&package.manifest)?;
        validate_module_size(package.module.as_slice())?;
        self.runtime.validate(package.module.as_slice(), &package.manifest)?;
        let snapshot = self.repository.install(package)?;
        self.publish(AppEvent::PluginInstalled { plugin: snapshot.clone() });
        Ok(snapshot)
    }

    /// Every installed plugin, each once.
    pub fn list(&self) -> (r: Result<Vec<PluginSnapshot>, PluginServiceError>)
        requires
            self.wf(),
        ensures
            R::obeys_repository_contract() ==> (r matches Ok(listed) && lists_installed(
                listed@,
                self.installed(),
            )),
    {
        self.repository.list()
    }

    fn get_required(&self, plugin_id: &PluginId) -> (r: Result<PluginSnapshot, PluginServiceError>)
        requires
            self.wf(),
        ensures
            R::obeys_repository_contract() ==> if self.installed().contains_key(plugin_id@) {
                r matches Ok(snapshot) && snapshot@ == self.installed()[plugin_id@]
                    && snapshot.manifest.id@ == plugin_id@
            } else {
                r matches Err(e) && e.spec_kind() == PluginServiceErrorKind::NotFound
            },
    {
        match self.repository.get(plugin_id)? {
            Some(snapshot) => Ok(snapshot),
            None => Err(not_found_error()),
        }
    }

    /// The plugin installed under `plugin_id`; `NotFound` when there is none.
    pub fn get(&self, plugin_id: &str) -> (r: Result<PluginSnapshot, PluginServiceError>)
        requires
            self.wf(),
        ensures
            !is_valid_plugin_id(plugin_id@) ==> (r matches Err(e) && e.spec_kind()
                == PluginServiceErrorKind::InvalidInput),
            R::obeys_repository_contract() && is_valid_plugin_id(plugin_id@) ==> if self.installed().contains_key(
                plugin_id@,
            ) {
                r matches Ok(snapshot) && snapshot@ == self.installed()[plugin_id@]
            } else {
                r matches Err(e) && e.spec_kind() == PluginServiceErrorKind::NotFound
            },
    {
        let plugin_id = validate_plugin_id(plugin_id)?;
        self.get_required(&plugin_id)
    }

    fn run_enable_hook(&self, snapshot: &PluginSnapshot) -> (r: Result<(), PluginServiceError>)
        requires
            self.wf(),
        ensures
            R::obeys_repository_contract() ==> (r is Ok ==> self.installed().contains_key(
                snapshot.manifest.id@,
            ) && self.spec_repository().modules().contains_key(snapshot.manifest.id@)),
            R::obeys_repository_contract() && T::obeys_runtime_contract() && self.installed().contains_key(
                snapshot.manifest.id@,
            ) ==> {
                let module = self.spec_repository().modules()[snapshot.manifest.id@];
                &&& (r is Ok <==> enable_allowed(self.spec_runtime(), module, snapshot.manifest@))
                &&& enable_hook_failed(self.spec_runtime(), module, snapshot.manifest@) ==> (r matches Err(
                    e,
                ) && e.spec_kind() == PluginServiceErrorKind::ExecutionFailed)
            },
    {
        let module = self.repository.module_bytes(&snapshot.manifest.id)?;
        self.runtime.validate(module.as_slice(), &snapshot.manifest)?;
        let hook = self.runtime.call_optional(module.as_slice(), PLUGIN_ENABLE_EXPORT)?;
        ensure_hook_succeeded(hook, PLUGIN_ENABLE_EXPORT)
    }

    /// Enables the plugin installed under `plugin_id` once its module validates and its
    /// enable hook succeeds; an enabled plugin is returned as it is.
    pub fn enable(&mut self, plugin_id: &str) -> (r: Result<PluginSnapshot, PluginServiceError>)
        requires
            old(self).wf(),
        ensures
            final(self).wf(),
            final(self).spec_runtime() == old(self).spec_runtime(),
            !is_valid_plugin_id(plugin_id@) ==> (r matches Err(e) && e.spec_kind()
                == PluginServiceErrorKind::InvalidInput),
            r is Err ==> final(self).published() == old(self).published(),
            R::obeys_repository_contract() && T::obeys_runtime_contract() && is_valid_plugin_id(
                plugin_id@,
            ) && old(self).installed().contains_key(plugin_id@) && old(self).installed()[plugin_id@].status
                == PluginStatus::Disabled ==> {
                let module = old(self).spec_repository().modules()[plugin_id@];
                let manifest = old(self).installed()[plugin_id@].manifest;
                &&& (r is Ok <==> enable_allowed(old(self).spec_runtime(), module, manifest))
                &&& enable_hook_failed(old(self).spec_runtime(), module, manifest) ==> (r matches Err(e)
                    && e.spec_kind() == PluginServiceErrorKind::ExecutionFailed)
            },
            R::obeys_repository_contract() ==> {
                &&& final(self).spec_repository().modules() == old(self).spec_repository().modules()
                &&& is_valid_plugin_id(plugin_id@) ==> lifecycle_start_fits(
                    old(self).installed(),
                    plugin_id@,
                    PluginStatus::Enabled,
                    r,
                )
                &&& match r {
                    Ok(snapshot) => {
                        let before = old(self).installed()[plugin_id@];
                        &&& is_valid_plugin_id(plugin_id@)
                        &&& old(self).installed().contains_key(plugin_id@)
                        &&& snapshot@.status == PluginStatus::Enabled
                        &&& snapshot@.manifest == before.manifest
                        &&& if before.status == PluginStatus::Enabled {
                            &&& snapshot@ == before
                            &&& final(self).unchanged_from(*old(self))
                        } else {
                            &&& final(self).installed() == old(self).installed().insert(
                                plugin_id@,
                                snapshot@,
                            )
                            &&& final(self).published() == old(self).published().push(
                                AppEventView::PluginEnabled { plugin: snapshot@ },
                            )
                        }
                    },
                    Err(_) => final(self).unchanged_from(*old(self)),
                }
            },
    {
        let plugin_id = validate_plugin_id(plugin_id)?;
        let snapshot = self.get_required(&plugin_id)?;
        if snapshot.status == PluginStatus::Enabled {
            return Ok(snapshot);
        }
        self.run_enable_hook(&snapshot)?;
        let snapshot = self.repository.set_status(&plugin_id, PluginStatus::Enabled)?;
        self.publish(AppEvent::PluginEnabled { plugin: snapshot.clone() });
        Ok(snapshot)
    }

    fn disable_locked(&mut self, plugin_id: &PluginId) -> (r: Result<PluginSnapshot, PluginServiceError>)
        requires
            old(self).wf(),
        ensures
            final(self).wf(),
            final(self).spec_runtime() == old(self).spec_runtime(),
            r is Err ==> final(self).published() == old(self).published(),
            R::obeys_repository_contract() && T::obeys_runtime_contract() && old(self).installed().contains_key(
                plugin_id@,
            ) && old(self).installed()[plugin_id@].status == PluginStatus::Enabled ==> {
                let outcome = old(self).spec_runtime().optional_call_outcome(
                    old(self).spec_repository().modules()[plugin_id@],
                    PLUGIN_DISABLE_EXPORT@,
                );
                &&& (r is Ok <==> hook_passes(outcome))
                &&& hook_returned_failure(outcome) ==> (r matches Err(e) && e.spec_kind()
                    == PluginServiceErrorKind::ExecutionFailed)
            },
            R::obeys_repository_contract() ==> {
                &&& final(self).spec_repository().modules() == old(self).spec_repository().modules()
                &&& lifecycle_start_fits(old(self).installed(), plugin_id@, PluginStatus::Disabled, r)
                &&& match r {
                    Ok(snapshot) => {
                        let before = old(self).installed()[plugin_id@];
                        &&& old(self).installed().contains_key(plugin_id@)
                        &&& snapshot@.status == PluginStatus::Disabled
                        &&& snapshot@.manifest == before.manifest
                        &&& if before.status == PluginStatus::Disabled {
                            &&& snapshot@ == before
                            &&& final(self).unchanged_from(*old(self))
                        } else {
                            &&& final(self).installed() == old(self).installed().insert(
                                plugin_id@,
                                snapshot@,
                            )
                            &&& final(self).published() == old(self).published().push(
                                AppEventView::PluginDisabled { plugin: snapshot@ },
                            )
                        }
                    },
                    Err(_) => final(self).unchanged_from(*old(self)),
                }
            },
    {
        let snapshot = self.get_required(plugin_id)?;
        if snapshot.status == PluginStatus::Disabled {
            return Ok(snapshot);
        }
        let module = self.repository.module_bytes(plugin_id)?;
        let hook = self.runtime.call_optional(module.as_slice(), PLUGIN_DISABLE_EXPORT)?;
        ensure_hook_succeeded(hook, PLUGIN_DISABLE_EXPORT)?;
        let snapshot = self.repository.set_status(plugin_id, PluginStatus::Disabled)?;
        self.publish(AppEvent::PluginDisabled { plugin: snapshot.clone() });
        Ok(snapshot)
    }

    /// Disables the plugin installed under `plugin_id` once its disable hook succeeds; a
    /// disabled plugin is returned as it is.
    pub fn disable(&mut self, plugin_id: &str) -> (r: Result<PluginSnapshot, PluginServiceError>)
        requires
            old(self).wf(),
        ensures
            final(self).wf(),
            final(self).spec_runtime() == old(self).spec_runtime(),
            !is_valid_plugin_id(plugin_id@) ==> (r matches Err(e) && e.spec_kind()
                == PluginServiceErrorKind::InvalidInput),
            r is Err ==> final(self).published() == old(self).published(),
            R::obeys_repository_contract() && T::obeys_runtime_contract() && is_valid_plugin_id(
                plugin_id@,
            ) && old(self).installed().contains_key(plugin_id@) && old(self).installed()[plugin_id@].status
                == PluginStatus::Enabled ==> {
                let outcome = old(self).spec_runtime().optional_call_outcome(
                    old(self).spec_repository().modules()[plugin_id@],
                    PLUGIN_DISABLE_EXPORT@,
                );
                &&& (r is Ok <==> hook_passes(outcome))
                &&& hook_returned_failure(outcome) ==> (r matches Err(e) && e.spec_kind()
                    == PluginServiceErrorKind::ExecutionFailed)
            },
            R::obeys_repository_contract() ==> {
                &&& final(self).spec_repository().modules() == old(self).spec_repository().modules()
                &&& is_valid_plugin_id(plugin_id@) ==> lifecycle_start_fits(
                    old(self).installed(),
                    plugin_id@,
                    PluginStatus::Disabled,
                    r,
                )
                &&& match r {
                    Ok(snapshot) => {
                        let before = old(self).installed()[plugin_id@];
                        &&& is_valid_plugin_id(plugin_id@)
                        &&& old(self).installed().contains_key(plugin_id@)
                        &&& snapshot@.status == PluginStatus::Disabled
                        &&& snapshot@.manifest == before.manifest
                        &&& if before.status == PluginStatus::Disabled {
                            &&& snapshot@ == before
                            &&& final(self).unchanged_from(*old(self))
                        } else {
                            &&& final(self).installed() == old(self).installed().insert(
                                plugin_id@,
                                snapshot@,
                            )
                            &&& final(self).published() == old(self).published().push(
                                AppEventView::PluginDisabled { plugin: snapshot@ },
                            )
                        }
                    },
                    Err(_) => final(self).unchanged_from(*old(self)),
                }
            },
    {
        let plugin_id = validate_plugin_id(plugin_id)?;
        self.disable_locked(&plugin_id)
    }

    /// Runs the command `command_name` of the enabled plugin `plugin_id`: the export of the
    /// first command of that name in the manifest. A disabled plugin is refused with
    /// `Conflict`, an undeclared command with `InvalidInput`.
    pub fn execute(&mut self, plugin_id: &str, command_name: &str) -> (r: Result<
        PluginExecution,
        PluginServiceError,
    >)
        requires
            old(self).wf(),
        ensures
            final(self).wf(),
            final(self).spec_runtime() == old(self).spec_runtime(),
            final(self).spec_repository() == old(self).spec_repository(),
            !is_valid_plugin_id(plugin_id@) ==> (r matches Err(e) && e.spec_kind()
                == PluginServiceErrorKind::InvalidInput),
            is_valid_plugin_id(plugin_id@) && !is_valid_command_name(command_name@) ==> (r matches Err(
                e,
            ) && e.spec_kind() == PluginServiceErrorKind::InvalidInput),
            match r {
                Ok(execution) => {
                    &&& is_valid_plugin_id(plugin_id@)
                    &&& is_valid_command_name(command_name@)
                    &&& execution.plugin_id@ == plugin_id@
                    &&& execution.command@ == command_name@
                    &&& final(self).published() == old(self).published().push(
                        AppEventView::PluginExecuted { execution },
                    )
                },
                Err(_) => final(self).published() == old(self).published(),
            },
            R::obeys_repository_contract() && is_valid_plugin_id(plugin_id@) && is_valid_command_name(
                command_name@,
            ) ==> {
                let installed = old(self).installed();
                &&& !installed.contains_key(plugin_id@) ==> (r matches Err(e) && e.spec_kind()
                    == PluginServiceErrorKind::NotFound)
                &&& installed.contains_key(plugin_id@) && installed[plugin_id@].status
                    == PluginStatus::Disabled ==> (r matches Err(e) && e.spec_kind()
                    == PluginServiceErrorKind::Conflict)
                &&& installed.contains_key(plugin_id@) && installed[plugin_id@].status
                    == PluginStatus::Enabled && !declares_command(
                    installed[plugin_id@].manifest.commands,
                    command_name@,
                ) ==> (r matches Err(e) && e.spec_kind() == PluginServiceErrorKind::InvalidInput)
                &&& r is Ok ==> installed.contains_key(plugin_id@) && installed[plugin_id@].status
                    == PluginStatus::Enabled && declares_command(
                    installed[plugin_id@].manifest.commands,
                    command_name@,
                )
                &&& T::obeys_runtime_contract() && installed.contains_key(plugin_id@)
                    && installed[plugin_id@].status == PluginStatus::Enabled && declares_command(
                    installed[plugin_id@].manifest.commands,
                    command_name@,
                ) ==> {
                    let outcome = old(self).spec_runtime().call_outcome(
                        old(self).spec_repository().modules()[plugin_id@],
                        first_command_export(installed[plugin_id@].manifest.commands, command_name@),
                    );
                    &&& (r is Ok <==> outcome is Some)
                    &&& outcome is None ==> (r matches Err(e) && e.spec_kind()
                        == PluginServiceErrorKind::ExecutionFailed)
                    &&& r matches Ok(execution) ==> execution.return_code == outcome->0.return_code
                        && execution.fuel_consumed == outcome->0.fuel_consumed
                }
            },
    {
        let plugin_id = validate_plugin_id(plugin_id)?;
        let command_name = validate_command_name(command_name)?;
        let snapshot = self.get_required(&plugin_id)?;
        if snapshot.status != PluginStatus::Enabled {
            return Err(
                PluginServiceError::new(
                    PluginServiceErrorKind::Conflict,
                    "plugin must be enabled before command execution",
                ),
            );
        }
        let commands = &snapshot.manifest.commands;
        let index = match find_command(commands, command_name.as_str()) {
            Some(index) => index,
            None => {
                return Err(
                    PluginServiceError::invalid_input("plugin command is not declared in the manifest"),
                );
            },
        };
        proof {
            let name = command_name@;
            let cs = commands@;
            let j = choose|j: int|
                0 <= j < cs.len() && cs[j].name@ == name && forall|k: int|
                    0 <= k < j ==> (#[trigger] cs[k]).name@ != name;
            assert(0 <= index < cs.len() && cs[index as int].name@ == name && forall|k: int|
                0 <= k < index ==> (#[trigger] cs[k]).name@ != name);
            if j < index {
                assert(cs[j].name@ != name);
            } else if j > index {
                assert(cs[index as int].name@ != name);
            }
            assert(first_command_export(cs, name) == cs[index as int].export@);
        }
        let module = self.repository.module_bytes(&plugin_id)?;
        let result = self.runtime.call(module.as_slice(), commands[index].export.as_str())?;
        let execution = PluginExecution {
            plugin_id,
            command: command_name,
            return_code: result.return_code,
            fuel_consumed: result.fuel_consumed,
        };
        self.publish(AppEvent::PluginExecuted { execution: execution.clone() });
        Ok(execution)
    }

    /// Uninstalls the plugin `plugin_id`, disabling it first when it is enabled; `NotFound`
    /// when there is no such plugin.
    pub fn uninstall(&mut self, plugin_id: &str) -> (r: Result<PluginId, PluginServiceError>)
        requires
            old(self).wf(),
        ensures
            final(self).wf(),
            final(self).spec_runtime() == old(self).spec_runtime(),
            !is_valid_plugin_id(plugin_id@) ==> (r matches Err(e) && e.spec_kind()
                == PluginServiceErrorKind::InvalidInput),
            R::obeys_repository_contract() ==> {
                &&& is_valid_plugin_id(plugin_id@) && !old(self).installed().contains_key(plugin_id@)
                    ==> (r matches Err(e) && e.spec_kind() == PluginServiceErrorKind::NotFound)
                &&& is_valid_plugin_id(plugin_id@) && old(self).installed().contains_key(plugin_id@)
                    && old(self).installed()[plugin_id@].status == PluginStatus::Disabled ==> r is Ok
                &&& final(self).installed().remove(plugin_id@) == old(self).installed().remove(
                    plugin_id@,
                )
                &&& match r {
                    Ok(removed) => {
                        let before = old(self).installed()[plugin_id@];
                        let n = old(self).published().len() as int;
                        &&& removed@ == plugin_id@
                        &&& old(self).installed().contains_key(plugin_id@)
                        &&& !final(self).installed().contains_key(plugin_id@)
                        &&& final(self).published().last() == (AppEventView::PluginRemoved {
                            plugin_id: removed,
                        })
                        &&& if before.status == PluginStatus::Enabled {
                            &&& final(self).published().len() == n + 2
                            &&& final(self).published().subrange(0, n) == old(self).published()
                            &&& final(self).published()[n] matches AppEventView::PluginDisabled {
                                plugin,
                            } && plugin.manifest == before.manifest && plugin.status
                                == PluginStatus::Disabled
                        } else {
                            final(self).published() == old(self).published().push(
                                AppEventView::PluginRemoved { plugin_id: removed },
                            )
                        }
                    },
                    Err(_) => {
                        &&& final(self).installed().contains_key(plugin_id@)
                            == old(self).installed().contains_key(plugin_id@)
                        &&& final(self).published() == old(self).published()
                    },
                }
            },
            R::obeys_repository_contract() && T::obeys_runtime_contract() && is_valid_plugin_id(
                plugin_id@,
            ) && old(self).installed().contains_key(plugin_id@) && old(self).installed()[plugin_id@].status
                == PluginStatus::Enabled ==> (r is Ok <==> hook_passes(
                old(self).spec_runtime().optional_call_outcome(
                    old(self).spec_repository().modules()[plugin_id@],
                    PLUGIN_DISABLE_EXPORT@,
                ),
            )),
    {
        let plugin_id = validate_plugin_id(plugin_id)?;
        let snapshot = self.get_required(&plugin_id)?;
        if snapshot.status == PluginStatus::Enabled {
            self.disable_locked(&plugin_id)?;
        }
        let removed = self.repository.remove(&plugin_id)?;
        if !removed {
            return Err(not_found_error());
        }
        self.publish(AppEvent::PluginRemoved { plugin_id: plugin_id.clone() });
        proof {
            let n = old(self).published().len() as int;
            if snapshot.status == PluginStatus::Enabled && R::obeys_repository_contract() {
                assert(self.published().subrange(0, n) =~= old(self).published());
            }
        }
        Ok(plugin_id)
    }

    /// Restores the plugins that were enabled before the previous exit. A plugin whose module
    /// no longer validates, or whose enable hook fails, is quarantined as disabled; every
    /// enabled plugin is counted once, as restored or as disabled.
    pub fn restore_enabled_plugins(&mut self) -> (r: PluginStartupReport)
        requires
            old(self).wf(),
        ensures
            final(self).wf(),
            final(self).spec_runtime() == old(self).spec_runtime(),
            R::obeys_repository_contract() && T::obeys_runtime_contract() ==> r.restored
                == restorable_ids(
                old(self).spec_runtime(),
                old(self).installed(),
                old(self).spec_repository().modules(),
            ).len(),
            R::obeys_repository_contract() && T::obeys_runtime_contract() ==> forall|id: Seq<char>|
                #[trigger] enabled_ids(old(self).installed()).contains(id) ==> (
                final(self).installed()[id].status == PluginStatus::Disabled <==> !restorable_ids(
                    old(self).spec_runtime(),
                    old(self).installed(),
                    old(self).spec_repository().modules(),
                ).contains(id)),
            R::obeys_repository_contract() ==> {
                &&& r.restored + r.disabled_after_failure == enabled_ids(old(self).installed()).len()
                &&& final(self).installed().dom() == old(self).installed().dom()
                &&& forall|id: Seq<char>| #[trigger]
                    old(self).installed().contains_key(id) ==> {
                        ||| final(self).installed()[id] == old(self).installed()[id]
                        ||| {
                            &&& old(self).installed()[id].status == PluginStatus::Enabled
                            &&& final(self).installed()[id].status == PluginStatus::Disabled
                            &&& final(self).installed()[id].manifest == old(
                                self,
                            ).installed()[id].manifest
                        }
                    }
                &&& final(self).published().len() == old(self).published().len()
                    + r.disabled_after_failure
                &&& final(self).published().subrange(0, old(self).published().len() as int)
                    == old(self).published()
                &&& forall|i: int|
                    old(self).published().len() <= i < final(self).published().len() ==> (
                    #[trigger] final(self).published()[i] matches AppEventView::PluginDisabled {
                        plugin,
                    } && plugin.status == PluginStatus::Disabled
                        && final(self).installed().contains_key(plugin.manifest.id@) && old(
                        self,
                    ).installed()[plugin.manifest.id@].status == PluginStatus::Enabled)
            },
    {
        let mut report = PluginStartupReport::default();
        let plugins = match self.repository.list() {
            Ok(plugins) => plugins,
            Err(_) => {
                return report;
            },
        };
        let ghost start = *self;
        proof {
            if R::obeys_repository_contract() {
                lemma_listed_enabled_finite(plugins@, start.installed());
            }
        }
        let ghost mut seen: Set<Seq<char>> = Set::empty();
        let ghost mut brought_back: Set<Seq<char>> = Set::empty();
        let ghost modules = start.spec_repository().modules();
        let mut i: usize = 0;
        while i < plugins.len()
            invariant
                self.wf(),
                self.spec_runtime() == start.spec_runtime(),
                start.wf(),
                R::obeys_repository_contract() ==> self.spec_repository().modules() == modules,
                R::obeys_repository_contract() && T::obeys_runtime_contract() ==> {
                    &&& brought_back.subset_of(seen)
                    &&& brought_back.finite()
                    &&& report.restored == brought_back.len()
                    &&& forall|sid: Seq<char>|
                        #[trigger] seen.contains(sid) ==> (self.installed()[sid].status
                            == PluginStatus::Disabled <==> !brought_back.contains(sid))
                    &&& forall|sid: Seq<char>|
                        #[trigger] seen.contains(sid) ==> (brought_back.contains(sid) <==> enable_allowed(
                            start.spec_runtime(),
                            modules[sid],
                            start.installed()[sid].manifest,
                        ))
                },
                0 <= i <= plugins@.len(),
                report.restored + report.disabled_after_failure <= i,
                R::obeys_repository_contract() ==> {
                    &&& lists_installed(plugins@, start.installed())
                    &&& enabled_ids(start.installed()).finite()
                    &&& seen.finite()
                    &&& report.restored + report.disabled_after_failure == seen.len()
                    &&& seen.subset_of(enabled_ids(start.installed()))
                    &&& forall|sid: Seq<char>|
                        #[trigger] seen.contains(sid) ==> exists|k: int|
                            0 <= k < i && #[trigger] plugins@[k].manifest.id@ == sid
                    &&& forall|k: int|
                        0 <= k < i && (#[trigger] plugins@[k]).status == PluginStatus::Enabled
                            ==> seen.contains(plugins@[k].manifest.id@)
                    &&& self.installed().dom() == start.installed().dom()
                    &&& forall|id: Seq<char>| #[trigger]
                        start.installed().contains_key(id) ==> {
                            ||| self.installed()[id] == start.installed()[id]
                            ||| {
                                &&& start.installed()[id].status == PluginStatus::Enabled
                                &&& self.installed()[id].status == PluginStatus::Disabled
                                &&& self.installed()[id].manifest == start.installed()[id].manifest
                            }
                        }
                    &&& forall|k: int| i <= k < plugins@.len() ==> self.installed()[#[trigger] plugins@[k].manifest.id@]
                        == start.installed()[plugins@[k].manifest.id@]
                    &&& self.published().len() == start.published().len() + report.disabled_after_failure
                    &&& self.published().subrange(0, start.published().len() as int) == start.published()
                    &&& forall|j: int|
                        start.published().len() <= j < self.published().len() ==> (
                        #[trigger] self.published()[j] matches AppEventView::PluginDisabled {
                            plugin,
                        } && plugin.status == PluginStatus::Disabled && self.installed().contains_key(
                            plugin.manifest.id@,
                        ) && start.installed()[plugin.manifest.id@].status == PluginStatus::Enabled)
                },
            decreases plugins@.len() - i,
        {
            let plugin = &plugins[i];
            let ghost id = plugin.manifest.id@;
            let ghost seen_before = seen;
            proof {
                if R::obeys_repository_contract() {
                    assert(start.installed().contains_key(id));
                    assert(plugin@ == start.installed()[id]);
                    if plugin.status == PluginStatus::Enabled {
                        if seen.contains(id) {
                            let k = choose|k: int| 0 <= k < i && #[trigger] plugins@[k].manifest.id@ == id;
                            assert(plugins@[k].manifest.id@ != plugins@[i as int].manifest.id@);
                        }
                        assert(enabled_ids(start.installed()).contains(id));
                        seen = seen.insert(id);
                    }
                }
            }
            if plugin.status == PluginStatus::Enabled {
                let hook = self.run_enable_hook(plugin);
                proof {
                    if R::obeys_repository_contract() && T::obeys_runtime_contract() {
                        assert(!brought_back.contains(id));
                        if hook is Ok {
                            brought_back = brought_back.insert(id);
                        }
                    }
                }
                match hook {
                    Ok(()) => {
                        report.restored = report.restored + 1;
                    },
                    Err(_) => {
                        let ghost before = *self;
                        match self.repository.set_status(&plugin.manifest.id, PluginStatus::Disabled) {
                            Ok(snapshot) => {
                                report.disabled_after_failure = report.disabled_after_failure + 1;
                                self.publish(AppEvent::PluginDisabled { plugin: snapshot });
                                proof {
                                    if R::obeys_repository_contract() {
                                        assert forall|k: int| i < k < plugins@.len() implies self.installed()[
                                            #[trigger] plugins@[k].manifest.id@]
                                            == start.installed()[plugins@[k].manifest.id@] by {
                                            assert(plugins@[k].manifest.id@ != plugins@[i as int].manifest.id@);
                                        }
                                        assert forall|j: int|
                                            start.published().len() <= j < self.published().len() implies (
                                            #[trigger] self.published()[j] matches AppEventView::PluginDisabled {
                                                plugin,
                                            } && plugin.status == PluginStatus::Disabled
                                                && self.installed().contains_key(plugin.manifest.id@)
                                                && start.installed()[plugin.manifest.id@].status
                                                == PluginStatus::Enabled) by {
                                            if j < before.published().len() {
                                                assert(self.published()[j] == before.published()[j]);
                                            }
                                        }
                                        assert(self.published().subrange(0, start.published().len() as int)
                                            =~= before.published().subrange(
                                            0,
                                            start.published().len() as int,
                                        ));
                                    }
                                }
                            },
                            Err(_) => {
                                proof {
                                    if R::obeys_repository_contract() {
                                        assert(before.installed().contains_key(id));
                                    }
                                }
                            },
                        }
                    },
                }
            }
            proof {
                if R::obeys_repository_contract() {
                    assert forall|sid: Seq<char>| #[trigger] seen.contains(sid) implies exists|k: int|
                        0 <= k < i + 1 && #[trigger] plugins@[k].manifest.id@ == sid by {
                        if sid == plugins@[i as int].manifest.id@ {
                            assert(plugins@[i as int].manifest.id@ == sid);
                        } else {
                            let k = choose|k: int| 0 <= k < i && #[trigger] plugins@[k].manifest.id@ == sid;
                            assert(plugins@[k].manifest.id@ == sid);
                        }
                    }
                }
            }
            i = i + 1;
        }
        proof {
            if R::obeys_repository_contract() {
                let enabled = enabled_ids(start.installed());
                assert forall|sid: Seq<char>| #[trigger] enabled.contains(sid) implies seen.contains(sid) by {
                    let k = choose|k: int| 0 <= k < plugins@.len() && #[trigger] plugins@[k].manifest.id@ == sid;
                    assert(plugins@[k]@ == start.installed()[sid]);
                }
                assert(seen =~= enabled);
                if T::obeys_runtime_contract() {
                    assert(brought_back =~= restorable_ids(start.spec_runtime(), start.installed(), modules));
                }
            }
        }
        report
    }

    /// Runs every enabled plugin's disable hook, leaving the recorded enabled state as it is so
    /// that those plugins come back at the next start; returns how many hooks succeeded, at
    /// most one per enabled plugin.
    pub fn shutdown(&self) -> (r: usize)
        requires
            self.wf(),
        ensures
            R::obeys_repository_contract() ==> r <= enabled_ids(self.installed()).len(),
            R::obeys_repository_contract() && T::obeys_runtime_contract() ==> r == stoppable_ids(
                self.spec_runtime(),
                self.installed(),
                self.spec_repository().modules(),
            ).len(),
    {
        let plugins = match self.repository.list() {
            Ok(plugins) => plugins,
            Err(_) => {
                return 0;
            },
        };
        let ghost installed = self.installed();
        proof {
            if R::obeys_repository_contract() {
                lemma_listed_enabled_finite(plugins@, installed);
            }
        }
        let ghost modules = self.spec_repository().modules();
        let ghost mut seen: Set<Seq<char>> = Set::empty();
        let ghost mut passed: Set<Seq<char>> = Set::empty();
        let mut stopped: usize = 0;
        let mut i: usize = 0;
        while i < plugins.len()
            invariant
                self.wf(),
                installed == self.installed(),
                0 <= i <= plugins@.len(),
                stopped <= i,
                R::obeys_repository_contract() ==> {
                    &&& lists_installed(plugins@, installed)
                    &&& enabled_ids(installed).finite()
                    &&& seen.finite()
                    &&& stopped <= seen.len()
                    &&& seen.subset_of(enabled_ids(installed))
                    &&& forall|id: Seq<char>|
                        #[trigger] seen.contains(id) ==> exists|k: int|
                            0 <= k < i && #[trigger] plugins@[k].manifest.id@ == id
                    &&& forall|k: int|
                        0 <= k < i && (#[trigger] plugins@[k]).status == PluginStatus::Enabled
                            ==> seen.contains(plugins@[k].manifest.id@)
                    &&& modules == self.spec_repository().modules()
                },
                R::obeys_repository_contract() && T::obeys_runtime_contract() ==> {
                    &&& passed.subset_of(seen)
                    &&& passed.finite()
                    &&& stopped == passed.len()
                    &&& forall|id: Seq<char>|
                        #[trigger] seen.contains(id) ==> (passed.contains(id) <==> hook_passes(
                            self.spec_runtime().optional_call_outcome(modules[id], PLUGIN_DISABLE_EXPORT@),
                        ))
                },
            decreases plugins@.len() - i,
        {
            let plugin = &plugins[i];
            let ghost id = plugins@[i as int].manifest.id@;
            let ghost seen_before = seen;
            if plugin.status == PluginStatus::Enabled {
                proof {
                    if R::obeys_repository_contract() {
                        let id = plugins@[i as int].manifest.id@;
                        if seen.contains(id) {
                            let k = choose|k: int| 0 <= k < i && #[trigger] plugins@[k].manifest.id@ == id;
                            assert(plugins@[k].manifest.id@ != plugins@[i as int].manifest.id@);
                        }
                        assert(installed[id] == plugins@[i as int]@);
                        assert(enabled_ids(installed).contains(id));
                        seen = seen.insert(id);
                    }
                }
                let outcome = match self.repository.module_bytes(&plugin.manifest.id) {
                    Ok(module) => match self.runtime.call_optional(
                        module.as_slice(),
                        PLUGIN_DISABLE_EXPORT,
                    ) {
                        Ok(hook) => ensure_hook_succeeded(hook, PLUGIN_DISABLE_EXPORT),
                        Err(error) => Err(error),
                    },
                    Err(error) => Err(error),
                };
                proof {
                    if R::obeys_repository_contract() && T::obeys_runtime_contract() {
                        assert(!seen_before.contains(id));
                        if outcome is Ok {
                            assert(!passed.contains(id));
                            passed = passed.insert(id);
                        }
                        assert(outcome is Ok <==> hook_passes(
                            self.spec_runtime().optional_call_outcome(modules[id], PLUGIN_DISABLE_EXPORT@),
                        ));
                    }
                }
                if outcome.is_ok() {
                    stopped = stopped + 1;
                }
            }
            proof {
                if R::obeys_repository_contract() {
                    assert forall|id: Seq<char>| #[trigger] seen.contains(id) implies exists|k: int|
                        0 <= k < i + 1 && #[trigger] plugins@[k].manifest.id@ == id by {
                        if id == plugins@[i as int].manifest.id@ {
                            assert(plugins@[i as int].manifest.id@ == id);
                        } else {
                            let k = choose|k: int| 0 <= k < i && #[trigger] plugins@[k].manifest.id@ == id;
                            assert(plugins@[k].manifest.id@ == id);
                        }
                    }
                }
            }
            i = i + 1;
        }
        proof {
            if R::obeys_repository_contract() {
                vstd::set_lib::lemma_len_subset(seen, enabled_ids(installed));
                let enabled = enabled_ids(installed);
                assert forall|sid: Seq<char>| #[trigger] enabled.contains(sid) implies seen.contains(sid) by {
                    let k = choose|k: int| 0 <= k < plugins@.len() && #[trigger] plugins@[k].manifest.id@ == sid;
                    assert(plugins@[k]@ == installed[sid]);
                }
                if T::obeys_runtime_contract() {
                    assert(passed =~= stoppable_ids(self.spec_runtime(), installed, modules));
                }
            }
        }
        stopped
    }
}

} // verus!
