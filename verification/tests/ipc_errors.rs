use shendesk::error::AppError;
use shendesk::ipc_error::{IpcError, IpcErrorCode};
use shendesk::ipc_request::{
    default_preview_page, default_step_delay_ms, map_config_error, map_plugin_error,
    map_task_manager_error, parse_task_id, validate_task_request, ConfigOperation,
    CreateTaskRequest, DEFAULT_STEP_DELAY_MS, MAX_STEP_DELAY_MS, MAX_TOTAL_STEPS,
};
use shendesk::plugin_error::{PluginServiceError, PluginServiceErrorKind};
use shendesk::task_service::TaskManagerError;

#[test]
fn redacts_database_details_from_ipc_payload() {
    let internal = AppError::database(
        "failed to open SQLite database /Users/example/private/app.sqlite: permission denied",
    );

    let payload = IpcError::for_config_load(&internal);

    assert_eq!(payload.code, IpcErrorCode::DatabaseUnavailable);
    assert!(!payload.message.contains("/Users/example/private"));
    assert!(!payload.message.contains("SQLite"));
}

#[test]
fn keeps_operation_specific_configuration_codes() {
    let internal = AppError::configuration("JSON parser failed at byte 17");

    assert_eq!(IpcError::for_config_load(&internal).code, IpcErrorCode::ConfigLoadFailed);
    assert_eq!(IpcError::for_config_save(&internal).code, IpcErrorCode::ConfigSaveFailed);
    assert_eq!(IpcError::for_config_reset(&internal).code, IpcErrorCode::ConfigResetFailed);
    assert_eq!(
        map_config_error(ConfigOperation::Save, &internal).code,
        IpcErrorCode::ConfigSaveFailed
    );
    assert_eq!(ConfigOperation::Reset.log_name(), "ipc.config.reset");
    assert_eq!(
        IpcError::for_config_load(&AppError::validation("bad")).code,
        IpcErrorCode::ValidationFailed
    );
}

#[test]
fn exposes_stable_task_errors_without_internal_details() {
    let not_found = IpcError::task_not_found();
    let unavailable = IpcError::task_queue_unavailable();

    assert_eq!(not_found.code, IpcErrorCode::TaskNotFound);
    assert_eq!(unavailable.code, IpcErrorCode::TaskQueueUnavailable);
    assert_eq!(not_found.message, "未找到指定任务。");
    assert_eq!(unavailable.message, "后台任务服务暂时不可用，请重试。");
    assert_eq!(
        map_task_manager_error(TaskManagerError::QueueUnavailable).code,
        IpcErrorCode::TaskQueueUnavailable
    );
    assert_eq!(
        map_task_manager_error(TaskManagerError::InvalidName).code,
        IpcErrorCode::ValidationFailed
    );
}

#[test]
fn plugin_errors_remain_operation_specific() {
    let not_found =
        PluginServiceError::new(PluginServiceErrorKind::NotFound, "/private/path must not reach IPC");
    let mapped = map_plugin_error("ipc.plugin.get", not_found);

    assert_eq!(mapped.code, IpcErrorCode::PluginNotFound);
    assert!(!mapped.message.contains("/private/path"));
}

#[test]
fn maps_plugin_errors_without_exposing_paths_or_runtime_details() {
    let internal = PluginServiceError::new(
        PluginServiceErrorKind::RuntimeRejected,
        "failed to compile /Users/example/private/evil.wasm at offset 19",
    );
    let payload = IpcError::for_plugin_operation(&internal);

    assert_eq!(payload.code, IpcErrorCode::PluginInvalidPackage);
    assert!(!payload.message.contains("/Users/example"));
    assert!(!payload.message.contains("offset"));
    assert_eq!(payload.message, "插件包无效或与当前版本不兼容。");
}

#[test]
fn accepts_bounded_progress_task_request() {
    let validated = validate_task_request(CreateTaskRequest {
        name: "  index files  ".to_owned(),
        total_steps: 20,
        step_delay_ms: 10,
    })
    .expect("request should be valid");

    assert_eq!(validated.name, "index files");
    assert_eq!(validated.total_steps, 20);
    assert_eq!(validated.step_delay_ms, 10);
}

#[test]
fn rejects_empty_or_excessively_long_tasks() {
    for request in [
        CreateTaskRequest { name: " ".to_owned(), total_steps: 1, step_delay_ms: 0 },
        CreateTaskRequest {
            name: "slow".to_owned(),
            total_steps: MAX_TOTAL_STEPS,
            step_delay_ms: MAX_STEP_DELAY_MS,
        },
    ] {
        assert_eq!(
            validate_task_request(request).expect_err("request should be rejected").code,
            IpcErrorCode::ValidationFailed
        );
    }
}

#[test]
fn task_ids_and_defaults_are_checked() {
    assert_eq!(parse_task_id(" task-1 ").expect("valid id").0, "task-1");
    assert_eq!(parse_task_id("  ").expect_err("blank").code, IpcErrorCode::ValidationFailed);
    assert_eq!(default_step_delay_ms(), DEFAULT_STEP_DELAY_MS);
    assert_eq!(default_preview_page(), 1);
    assert!(validate_task_request(CreateTaskRequest {
        name: "ok".to_owned(),
        total_steps: 600,
        step_delay_ms: 1_000,
    })
    .is_ok());
    assert!(validate_task_request(CreateTaskRequest {
        name: "zero".to_owned(),
        total_steps: 0,
        step_delay_ms: 1,
    })
    .is_err());
}
