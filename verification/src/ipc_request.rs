//! Checks on IPC requests before they reach a service, and the mapping of the task and
//! configuration outcomes to IPC errors.
use vstd::prelude::*;

use crate::domain::task::TaskId;
use crate::auth_service::{AuthServiceError, AuthServiceErrorKind};
use crate::error::AppError;
use crate::file_service::FileServiceError;
use crate::image_service::{image_safe_message, ImageServiceError, ImageServiceErrorKind};
use crate::ipc_error::{
    app_error_code, auth_error_code, code_message, file_error_code, image_error_code,
    office_error_code, plugin_error_code, update_error_code, IpcError, IpcErrorCode,
};
use crate::office_service::OfficeServiceError;
use crate::plugin_error::PluginServiceError;
use crate::update_service::UpdateServiceError;
use crate::task_service::TaskManagerError;
use crate::text::{char_count, trim, trim_seq};

verus! {

pub const MAX_TASK_NAME_CHARS: usize = 128;

pub const MAX_TASK_ID_CHARS: usize = 128;

pub const MAX_TOTAL_STEPS: u64 = 10_000;

pub const MAX_STEP_DELAY_MS: u64 = 1_000;

pub const MAX_TASK_DURATION_MS: u64 = 600_000;

pub const DEFAULT_STEP_DELAY_MS: u64 = 50;

/// The first page is previewed unless another is asked for.
pub const DEFAULT_PREVIEW_PAGE: u32 = 1;

/// A request for a demonstration progress task.
#[derive(Debug, PartialEq, Eq)]
pub struct CreateTaskRequest {
    pub name: String,
    pub total_steps: u64,
    pub step_delay_ms: u64,
}

/// A checked progress task request; the name is trimmed.
#[derive(Debug, PartialEq, Eq)]
pub struct ValidatedTaskRequest {
    pub name: String,
    pub total_steps: u64,
    pub step_delay_ms: u64,
}

pub fn default_step_delay_ms() -> (r: u64)
    ensures
        r == DEFAULT_STEP_DELAY_MS,
{
    DEFAULT_STEP_DELAY_MS
}

pub fn default_preview_page() -> (r: u32)
    ensures
        r == DEFAULT_PREVIEW_PAGE,
{
    DEFAULT_PREVIEW_PAGE
}

/// A task request is bounded: a name of 1 to 128 characters once trimmed, 1 to 10000 steps,
/// at most one second between steps and at most ten minutes in all.
pub open spec fn is_bounded_task_request(request: CreateTaskRequest) -> bool {
    let name = trim_seq(request.name@);
    &&& 1 <= name.len() <= MAX_TASK_NAME_CHARS
    &&& 1 <= request.total_steps <= MAX_TOTAL_STEPS
    &&& request.step_delay_ms <= MAX_STEP_DELAY_MS
    &&& request.total_steps * request.step_delay_ms <= MAX_TASK_DURATION_MS
}

pub fn validate_task_request(request: CreateTaskRequest) -> (r: Result<ValidatedTaskRequest, IpcError>)
    ensures
        r is Ok <==> is_bounded_task_request(request),
        r matches Ok(valid) ==> {
            &&& valid.name@ == trim_seq(request.name@)
            &&& valid.total_steps == request.total_steps
            &&& valid.step_delay_ms == request.step_delay_ms
        },
        r matches Err(e) ==> e.is_standard(IpcErrorCode::ValidationFailed),
{
    let name = trim(request.name.as_str());
    let length = char_count(name);
    if length == 0 || length > MAX_TASK_NAME_CHARS || request.total_steps == 0
        || request.total_steps > MAX_TOTAL_STEPS || request.step_delay_ms > MAX_STEP_DELAY_MS {
        return Err(IpcError::validation());
    }
    let total = request.total_steps;
    let delay = request.step_delay_ms;
    assert(total * delay <= 10_000 * 1_000) by (nonlinear_arith)
        requires
            total <= 10_000,
            delay <= 1_000,
    ;
    let duration_ms = total * delay;
    if duration_ms > MAX_TASK_DURATION_MS {
        return Err(IpcError::validation());
    }
    Ok(ValidatedTaskRequest { name: name.to_owned(), total_steps: total, step_delay_ms: delay })
}

/// A task id: 1 to 128 characters once trimmed.
pub fn parse_task_id(task_id: &str) -> (r: Result<TaskId, IpcError>)
    ensures
        r is Ok <==> 1 <= trim_seq(task_id@).len() <= MAX_TASK_ID_CHARS,
        r matches Ok(id) ==> id.0@ == trim_seq(task_id@),
        r matches Err(e) ==> e.is_standard(IpcErrorCode::ValidationFailed),
{
    let task_id = trim(task_id);
    let length = char_count(task_id);
    if length == 0 || length > MAX_TASK_ID_CHARS {
        return Err(IpcError::validation());
    }
    Ok(TaskId::new(task_id))
}

/// Invalid task input is a validation error; a full or closed queue is reported as such.
pub fn map_task_manager_error(error: TaskManagerError) -> (r: IpcError)
    ensures
        error == TaskManagerError::QueueUnavailable ==> r.is_standard(
            IpcErrorCode::TaskQueueUnavailable,
        ),
        error != TaskManagerError::QueueUnavailable ==> r.is_standard(
            IpcErrorCode::ValidationFailed,
        ),
{
    match error {
        TaskManagerError::InvalidName | TaskManagerError::InvalidTotal => IpcError::validation(),
        TaskManagerError::QueueUnavailable => IpcError::task_queue_unavailable(),
    }
}

#[derive(Debug, Clone, Copy, PartialEq, Eq, Structural)]
pub enum ConfigOperation {
    Load,
    Save,
    Reset,
}

impl ConfigOperation {
    /// The operation's name in the operation log.
    pub fn log_name(self) -> (r: &'static str)
        ensures
            r@ == match self {
                ConfigOperation::Load => "ipc.config.get"@,
                ConfigOperation::Save => "ipc.config.save"@,
                ConfigOperation::Reset => "ipc.config.reset"@,
            },
    {
        match self {
            ConfigOperation::Load => "ipc.config.get",
            ConfigOperation::Save => "ipc.config.save",
            ConfigOperation::Reset => "ipc.config.reset",
        }
    }

    /// The operation's own error code.
    pub open spec fn code(self) -> IpcErrorCode {
        match self {
            ConfigOperation::Load => IpcErrorCode::ConfigLoadFailed,
            ConfigOperation::Save => IpcErrorCode::ConfigSaveFailed,
            ConfigOperation::Reset => IpcErrorCode::ConfigResetFailed,
        }
    }
}

/// The IPC error of a failed configuration operation.
pub fn map_config_error(operation: ConfigOperation, error: &AppError) -> (r: IpcError)
    ensures
        r.is_standard(app_error_code(error.spec_kind(), operation.code())),
{
    match operation {
        ConfigOperation::Load => IpcError::for_config_load(error),
        ConfigOperation::Save => IpcError::for_config_save(error),
        ConfigOperation::Reset => IpcError::for_config_reset(error),
    }
}

/// The IPC error of a failed file command; `operation` names the command in the operation log.
pub fn map_file_error(operation: &str, error: FileServiceError) -> (r: IpcError)
    ensures
        r.is_standard(file_error_code(error.spec_kind())),
{
    IpcError::for_file_operation(&error)
}

/// The IPC error of a failed plugin command.
pub fn map_plugin_error(operation: &str, error: PluginServiceError) -> (r: IpcError)
    ensures
        r.is_standard(plugin_error_code(error.spec_kind())),
{
    IpcError::for_plugin_operation(&error)
}

/// The IPC error of a failed update command.
pub fn map_update_error(operation: &str, error: UpdateServiceError) -> (r: IpcError)
    ensures
        r.is_standard(update_error_code(error.spec_kind())),
{
    IpcError::for_update_operation(&error)
}

/// The IPC error of a failed Office command.
pub fn map_office_error(operation: &str, error: OfficeServiceError) -> (r: IpcError)
    ensures
        r.is_standard(office_error_code(error.spec_kind())),
{
    IpcError::for_office_operation(&error)
}

/// The IPC error of a failed image batch.
pub fn map_image_error(error: ImageServiceError) -> (r: IpcError)
    ensures
        r.code == image_error_code(error.spec_kind()),
        r.message@ == if error.spec_kind() == ImageServiceErrorKind::Validation {
            code_message(IpcErrorCode::ValidationFailed)
        } else {
            image_safe_message(error.spec_kind())
        },
{
    IpcError::for_image_operation(&error)
}

/// The IPC error of a failed authentication command.
pub fn map_auth_error(error: &AuthServiceError) -> (r: IpcError)
    ensures
        r.code == auth_error_code(error.spec_kind()),
        error.spec_kind() == AuthServiceErrorKind::Rejected ==> r.message@ == error.spec_message(),
        error.spec_kind() != AuthServiceErrorKind::Rejected ==> r.message@ == code_message(r.code),
{
    IpcError::for_auth_operation(error)
}

} // verus!
