use std::sync::Mutex;

use shendesk::domain::event::EventKind;
use shendesk::domain::plugin::{
    PluginCommand, PluginId, PluginManifest, PluginSnapshot, PluginStatus, PLUGIN_API_VERSION,
    PLUGIN_DISABLE_EXPORT, PLUGIN_ENABLE_EXPORT,
};
use shendesk::event_bus::EventBus;
use shendesk::plugin_error::{PluginServiceError, PluginServiceErrorKind};
use shendesk::plugin_port::{
    ensure_hook_succeeded, installed_snapshot, next_updated_at, PluginCallResult, PluginPackage, PluginRepository,
    PluginRuntime,
};
use shendesk::plugin_service::{find_command, PluginService};
use shendesk::plugin_store::MemoryPluginRepository;
use shendesk::plugin_validation::{
    validate_command_name, validate_export_name, validate_manifest, validate_manifest_path,
    validate_module_size, validate_plugin_id,
};

const MANIFEST_PATH: &str = "/tmp/plugin.json";

fn manifest() -> PluginManifest {
    PluginManifest {
        api_version: PLUGIN_API_VERSION,
        id: PluginId::new("com.shencom.hello"),
        name: "Hello".to_owned(),
        version: "1.0.0".to_owned(),
        entrypoint: "hello.wasm".to_owned(),
        description: None,
        commands: vec![PluginCommand {
            name: "hello".to_owned(),
            export: "hello".to_owned(),
            description: None,
        }],
    }
}

#[derive(Default)]
struct RecordingRuntime {
    calls: Mutex<Vec<String>>,
    enable_code: i32,
}

impl RecordingRuntime {
    fn calls(&self) -> Vec<String> {
        self.calls.lock().expect("calls lock").clone()
    }
}

impl PluginRuntime for RecordingRuntime {
    fn validate(&self, _module: &[u8], _manifest: &PluginManifest) -> Result<(), PluginServiceError> {
        self.calls.lock().expect("calls lock").push("validate".to_owned());
        Ok(())
    }

    fn call(&self, _module: &[u8], export: &str) -> Result<PluginCallResult, PluginServiceError> {
        self.calls.lock().expect("calls lock").push(export.to_owned());
        Ok(PluginCallResult { return_code: 7, fuel_consumed: 42 })
    }

    fn call_optional(
        &self,
        _module: &[u8],
        export: &str,
    ) -> Result<Option<PluginCallResult>, PluginServiceError> {
        self.calls.lock().expect("calls lock").push(export.to_owned());
        let return_code = if export == PLUGIN_ENABLE_EXPORT { self.enable_code } else { 0 };
        Ok(Some(PluginCallResult { return_code, fuel_consumed: 1 }))
    }
}

fn repository_with_source(module: Vec<u8>) -> MemoryPluginRepository {
    let mut repository = MemoryPluginRepository::new();
    repository.stage(MANIFEST_PATH, PluginPackage { manifest: manifest(), module });
    repository
}

#[test]
fn validates_the_versioned_manifest_contract() {
    validate_manifest(&manifest()).expect("valid manifest should pass");
}

#[test]
fn rejects_path_traversal_reserved_exports_and_invalid_semver() {
    let mut invalid_entrypoint = manifest();
    invalid_entrypoint.entrypoint = "../hello.wasm".to_owned();
    assert_eq!(
        validate_manifest(&invalid_entrypoint).expect_err("traversal must fail").kind(),
        PluginServiceErrorKind::InvalidManifest
    );

    let mut reserved = manifest();
    reserved.commands[0].export = PLUGIN_ENABLE_EXPORT.to_owned();
    assert_eq!(
        validate_manifest(&reserved).expect_err("reserved export must fail").kind(),
        PluginServiceErrorKind::InvalidManifest
    );

    let mut invalid_version = manifest();
    invalid_version.version = "latest".to_owned();
    assert!(validate_manifest(&invalid_version).is_err());
}

#[test]
fn rejects_invalid_plugin_and_command_identifiers() {
    assert!(validate_plugin_id("../../private").is_err());
    assert!(validate_plugin_id("hello").is_err());
    assert!(validate_plugin_id(" com.shencom.hello").is_err());
    assert!(validate_command_name("Run Shell").is_err());
    assert!(validate_command_name("hello ").is_err());
    assert!(validate_export_name("9invalid").is_err());
}

#[test]
fn rejects_non_canonical_manifest_text_instead_of_silently_trimming_it() {
    let mut invalid_name = manifest();
    invalid_name.name = " Hello".to_owned();
    assert_eq!(
        validate_manifest(&invalid_name).expect_err("leading whitespace must fail").kind(),
        PluginServiceErrorKind::InvalidManifest
    );

    let mut invalid_command = manifest();
    invalid_command.commands[0].name = "hello ".to_owned();
    assert_eq!(
        validate_manifest(&invalid_command).expect_err("trailing whitespace must fail").kind(),
        PluginServiceErrorKind::InvalidManifest
    );
}

#[test]
fn drives_install_enable_execute_disable_and_remove_events() {
    let repository = repository_with_source(vec![1, 2, 3]);
    let mut service =
        PluginService::new(repository, RecordingRuntime::default(), EventBus::new(16));
    let mut subscriber = service.event_bus().subscribe_to(vec![
        EventKind::PluginInstalled,
        EventKind::PluginEnabled,
        EventKind::PluginExecuted,
        EventKind::PluginDisabled,
        EventKind::PluginRemoved,
    ]);

    service.install(MANIFEST_PATH).expect("install should work");
    service.enable("com.shencom.hello").expect("enable should work");
    let execution = service.execute("com.shencom.hello", "hello").expect("command should run");
    service.disable("com.shencom.hello").expect("disable should work");
    service.uninstall("com.shencom.hello").expect("uninstall should work");

    assert_eq!(execution.return_code, 7);
    assert_eq!(execution.fuel_consumed, 42);
    let kinds = (0..5)
        .map(|_| {
            service
                .event_bus()
                .try_recv(&mut subscriber)
                .expect("event should exist")
                .event
                .kind()
        })
        .collect::<Vec<_>>();
    assert_eq!(
        kinds,
        vec![
            EventKind::PluginInstalled,
            EventKind::PluginEnabled,
            EventKind::PluginExecuted,
            EventKind::PluginDisabled,
            EventKind::PluginRemoved,
        ]
    );
    assert_eq!(
        service.runtime().calls(),
        vec!["validate", "validate", PLUGIN_ENABLE_EXPORT, "hello", PLUGIN_DISABLE_EXPORT]
    );
}

#[test]
fn shutdown_runs_hooks_without_losing_the_enabled_preference() {
    let mut repository = repository_with_source(vec![1]);
    repository
        .install(PluginPackage { manifest: manifest(), module: vec![1] })
        .expect("install should work");
    repository
        .set_status(&PluginId::new("com.shencom.hello"), PluginStatus::Enabled)
        .expect("status should change");
    let mut service = PluginService::new(repository, RecordingRuntime::default(), EventBus::default());

    let report = service.restore_enabled_plugins();
    assert_eq!(report.restored, 1);
    assert_eq!(service.shutdown(), 1);
    assert_eq!(
        service.get("com.shencom.hello").expect("plugin should exist").status,
        PluginStatus::Enabled
    );
    assert!(service.runtime().calls().contains(&PLUGIN_ENABLE_EXPORT.to_owned()));
    assert!(service.runtime().calls().contains(&PLUGIN_DISABLE_EXPORT.to_owned()));
}

#[test]
fn restore_quarantines_a_plugin_whose_enable_hook_fails() {
    let mut repository = MemoryPluginRepository::new();
    repository
        .install(PluginPackage { manifest: manifest(), module: vec![1] })
        .expect("install should work");
    repository
        .set_status(&PluginId::new("com.shencom.hello"), PluginStatus::Enabled)
        .expect("status should change");
    let runtime = RecordingRuntime { calls: Mutex::new(Vec::new()), enable_code: 3 };
    let mut service = PluginService::new(repository, runtime, EventBus::default());
    let mut subscriber = service.event_bus().subscribe();

    let report = service.restore_enabled_plugins();

    assert_eq!(report.restored, 0);
    assert_eq!(report.disabled_after_failure, 1);
    assert_eq!(
        service.get("com.shencom.hello").expect("plugin should exist").status,
        PluginStatus::Disabled
    );
    let event = service.event_bus().try_recv(&mut subscriber).expect("quarantine event");
    assert_eq!(event.event.kind(), EventKind::PluginDisabled);
}

#[test]
fn execution_requires_an_enabled_plugin_and_a_declared_command() {
    let mut service = PluginService::new(
        repository_with_source(vec![1]),
        RecordingRuntime::default(),
        EventBus::default(),
    );
    service.install(MANIFEST_PATH).expect("install should work");
    assert_eq!(
        service.execute("com.shencom.hello", "hello").expect_err("disabled").kind(),
        PluginServiceErrorKind::Conflict
    );
    service.enable("com.shencom.hello").expect("enable should work");
    assert_eq!(
        service.execute("com.shencom.hello", "missing").expect_err("undeclared").kind(),
        PluginServiceErrorKind::InvalidInput
    );
    assert_eq!(
        service.execute("com.shencom.absent", "hello").expect_err("absent").kind(),
        PluginServiceErrorKind::NotFound
    );
    assert_eq!(
        service.install(MANIFEST_PATH).expect_err("installed twice").kind(),
        PluginServiceErrorKind::AlreadyInstalled
    );
}

#[test]
fn manifest_paths_must_be_absolute_plugin_json_files() {
    assert_eq!(validate_manifest_path("  /tmp/plugin.json ").expect("valid path"), "/tmp/plugin.json");
    assert!(validate_manifest_path("plugin.json").is_err());
    assert!(validate_manifest_path("/tmp/package.json").is_err());
    assert!(validate_manifest_path("   ").is_err());
}

#[test]
fn module_size_is_bounded() {
    assert_eq!(
        validate_module_size(&[]).expect_err("empty").kind(),
        PluginServiceErrorKind::InvalidManifest
    );
    assert!(validate_module_size(&[0, 97, 115, 109]).is_ok());
}

#[test]
fn lifecycle_hooks_fail_on_a_nonzero_return_code() {
    assert!(ensure_hook_succeeded(None, PLUGIN_ENABLE_EXPORT).is_ok());
    assert!(ensure_hook_succeeded(
        Some(PluginCallResult { return_code: 0, fuel_consumed: 3 }),
        PLUGIN_ENABLE_EXPORT
    )
    .is_ok());
    let error = ensure_hook_succeeded(
        Some(PluginCallResult { return_code: -12, fuel_consumed: 3 }),
        PLUGIN_DISABLE_EXPORT,
    )
    .expect_err("nonzero code fails");
    assert_eq!(error.kind(), PluginServiceErrorKind::ExecutionFailed);
    assert_eq!(
        error.message(),
        "plugin lifecycle export shendesk_on_disable returned -12"
    );
}

#[test]
fn updated_timestamp_remains_monotonic_when_the_clock_moves_backwards() {
    let snapshot = PluginSnapshot {
        manifest: manifest(),
        status: PluginStatus::Disabled,
        installed_at_unix_ms: 5_000,
        updated_at_unix_ms: 6_000,
    };
    assert_eq!(next_updated_at(&snapshot, 1_000), 6_000);
    assert_eq!(next_updated_at(&snapshot, 9_000), 9_000);
}

#[test]
fn memory_repository_reads_staged_packages_and_refuses_twice_installed_ids() {
    let mut repository = repository_with_source(vec![0, 0x61, 0x73, 0x6d, 1, 0, 0, 0]);
    let package = repository.read_package(MANIFEST_PATH).expect("staged package should be read");
    assert_eq!(package.module, vec![0, 0x61, 0x73, 0x6d, 1, 0, 0, 0]);
    assert_eq!(
        repository.read_package("/tmp/other.json").expect_err("unstaged path").kind(),
        PluginServiceErrorKind::NotFound
    );
    repository.stage(MANIFEST_PATH, PluginPackage { manifest: manifest(), module: vec![7] });
    assert_eq!(repository.read_package(MANIFEST_PATH).expect("restaged").module, vec![7]);

    let id = manifest().id;
    assert_eq!(
        repository.module_bytes(&id).expect_err("nothing installed").kind(),
        PluginServiceErrorKind::NotFound
    );
    repository.install(package).expect("first install");
    assert_eq!(
        repository
            .install(PluginPackage { manifest: manifest(), module: vec![7] })
            .expect_err("second install")
            .kind(),
        PluginServiceErrorKind::AlreadyInstalled
    );
    assert_eq!(repository.list().expect("list").len(), 1);
    assert!(repository.get(&id).expect("get").is_some());
    let updated = repository.set_status(&id, PluginStatus::Enabled).expect("installed");
    assert_eq!(updated.status, PluginStatus::Enabled);
    assert!(repository.remove(&id).expect("remove"));
    assert!(!repository.remove(&id).expect("remove again"));
    assert_eq!(
        repository.set_status(&id, PluginStatus::Enabled).expect_err("removed").kind(),
        PluginServiceErrorKind::NotFound
    );
}

#[test]
fn finds_the_first_command_of_a_name() {
    let commands = vec![
        PluginCommand { name: "a".to_owned(), export: "first".to_owned(), description: None },
        PluginCommand { name: "b".to_owned(), export: "second".to_owned(), description: None },
        PluginCommand { name: "b".to_owned(), export: "third".to_owned(), description: None },
    ];
    assert_eq!(find_command(&commands, "b"), Some(1));
    assert_eq!(find_command(&commands, "a"), Some(0));
    assert_eq!(find_command(&commands, "c"), None);
}

#[test]
fn a_new_installation_starts_disabled_at_its_install_time() {
    let snapshot = installed_snapshot(manifest(), 42);
    assert_eq!(snapshot.status, PluginStatus::Disabled);
    assert_eq!(snapshot.installed_at_unix_ms, 42);
    assert_eq!(snapshot.updated_at_unix_ms, 42);
    assert_eq!(snapshot.manifest, manifest());
}
