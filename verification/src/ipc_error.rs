//! The stable, redacted error payload of the desktop IPC commands. Every service error maps
//! to a fixed code and a user-facing message; internal details never cross.
use vstd::prelude::*;

use crate::auth_service::{AuthServiceError, AuthServiceErrorKind};
use crate::error::{AppError, AppErrorKind};
use crate::file_service::{FileServiceError, FileServiceErrorKind};
use crate::image_service::{ImageServiceError, ImageServiceErrorKind, image_safe_message};
use crate::office_service::{OfficeServiceError, OfficeServiceErrorKind};
use crate::plugin_error::{PluginServiceError, PluginServiceErrorKind};
use crate::update_service::{UpdateServiceError, UpdateServiceErrorKind};

verus! {

#[derive(Debug, Clone, Copy, PartialEq, Eq, Structural)]
pub enum IpcErrorCode {
    DatabaseUnavailable,
    ConfigLoadFailed,
    ConfigSaveFailed,
    ConfigResetFailed,
    TaskNotFound,
    TaskQueueUnavailable,
    FileNotFound,
    FileAccessDenied,
    FileTooLarge,
    FileNotText,
    FileWatchUnavailable,
    FileWatchNotFound,
    FileOperationFailed,
    PluginNotFound,
    PluginAlreadyInstalled,
    PluginInvalidPackage,
    PluginConflict,
    PluginExecutionFailed,
    PluginOperationFailed,
    UpdateNotConfigured,
    UpdateBusy,
    UpdateNotAvailable,
    UpdateCheckFailed,
    UpdateInstallFailed,
    UpdateOperationFailed,
    ImageOutputFailed,
    ImageOperationFailed,
    AuthRejected,
    AuthUnavailable,
    AuthStorageFailed,
    OfficeEngineUnavailable,
    OfficeFormatUnsupported,
    OfficeDocumentNotFound,
    OfficeDocumentLocked,
    OfficeOutputConflict,
    OfficeOperationTimeout,
    OfficeOperationCancelled,
    OfficeOperationFailed,
    ValidationFailed,
    UnknownError,
}

/// The user-facing text of each error code.
pub open spec fn code_message(code: IpcErrorCode) -> Seq<char> {
    match code {
        IpcErrorCode::DatabaseUnavailable => "本地数据服务暂时不可用，请重试。"@,
        IpcErrorCode::ConfigLoadFailed => "无法读取应用配置，请重试。"@,
        IpcErrorCode::ConfigSaveFailed => "无法保存应用配置，请重试。"@,
        IpcErrorCode::ConfigResetFailed => "无法恢复默认配置，请重试。"@,
        IpcErrorCode::TaskNotFound => "未找到指定任务。"@,
        IpcErrorCode::TaskQueueUnavailable => "后台任务服务暂时不可用，请重试。"@,
        IpcErrorCode::FileNotFound => "未找到指定文件或目录。"@,
        IpcErrorCode::FileAccessDenied => "没有权限访问指定文件或目录。"@,
        IpcErrorCode::FileTooLarge => "文件超过允许读取的大小。"@,
        IpcErrorCode::FileNotText => "该文件不是可读取的 UTF-8 文本。"@,
        IpcErrorCode::FileWatchUnavailable => "文件监听服务暂时不可用，请重试。"@,
        IpcErrorCode::FileWatchNotFound => "未找到指定文件监听。"@,
        IpcErrorCode::FileOperationFailed => "文件操作失败，请重试。"@,
        IpcErrorCode::PluginNotFound => "未找到指定插件。"@,
        IpcErrorCode::PluginAlreadyInstalled => "该插件已经安装。"@,
        IpcErrorCode::PluginInvalidPackage => "插件包无效或与当前版本不兼容。"@,
        IpcErrorCode::PluginConflict => "插件当前状态不允许此操作。"@,
        IpcErrorCode::PluginExecutionFailed => "插件执行失败，请重试。"@,
        IpcErrorCode::PluginOperationFailed => "插件操作失败，请重试。"@,
        IpcErrorCode::UpdateNotConfigured => "当前构建未配置安全更新通道。"@,
        IpcErrorCode::UpdateBusy => "另一个更新操作正在进行中。"@,
        IpcErrorCode::UpdateNotAvailable => "没有可安装的更新，请先检查新版本。"@,
        IpcErrorCode::UpdateCheckFailed => "检查更新失败，请稍后重试。"@,
        IpcErrorCode::UpdateInstallFailed => "更新下载、验证或安装失败，请重试。"@,
        IpcErrorCode::UpdateOperationFailed => "更新服务暂时不可用，请重试。"@,
        IpcErrorCode::ImageOutputFailed => "无法写入输出文件，文件可能已存在或目录不可写。"@,
        IpcErrorCode::ImageOperationFailed => "图片处理失败，请重试。"@,
        IpcErrorCode::AuthRejected => "手机号或密码不正确。"@,
        IpcErrorCode::AuthUnavailable => "登录服务暂时不可用，请稍后重试。"@,
        IpcErrorCode::AuthStorageFailed => "无法保存登录状态，请重试。"@,
        IpcErrorCode::OfficeEngineUnavailable => "Office 文档引擎不可用。"@,
        IpcErrorCode::OfficeFormatUnsupported => "仅支持 DOCX、XLSX 和 PPTX 文档。"@,
        IpcErrorCode::OfficeDocumentNotFound => "找不到指定的 Office 文档。"@,
        IpcErrorCode::OfficeDocumentLocked => "Office 文档正在被其他程序使用。"@,
        IpcErrorCode::OfficeOutputConflict => "目标文件已存在。"@,
        IpcErrorCode::OfficeOperationTimeout => "Office 文档操作超时。"@,
        IpcErrorCode::OfficeOperationCancelled => "Office 文档操作已取消。"@,
        IpcErrorCode::OfficeOperationFailed => "Office 文档操作失败。"@,
        IpcErrorCode::ValidationFailed => "提交的数据无效，请检查后重试。"@,
        IpcErrorCode::UnknownError => "操作失败，请重试。"@,
    }
}

/// The user-facing text of `code`.
pub fn message_for(code: IpcErrorCode) -> (r: &'static str)
    ensures
        r@ == code_message(code),
{
    match code {
        IpcErrorCode::DatabaseUnavailable => "本地数据服务暂时不可用，请重试。",
        IpcErrorCode::ConfigLoadFailed => "无法读取应用配置，请重试。",
        IpcErrorCode::ConfigSaveFailed => "无法保存应用配置，请重试。",
        IpcErrorCode::ConfigResetFailed => "无法恢复默认配置，请重试。",
        IpcErrorCode::TaskNotFound => "未找到指定任务。",
        IpcErrorCode::TaskQueueUnavailable => "后台任务服务暂时不可用，请重试。",
        IpcErrorCode::FileNotFound => "未找到指定文件或目录。",
        IpcErrorCode::FileAccessDenied => "没有权限访问指定文件或目录。",
        IpcErrorCode::FileTooLarge => "文件超过允许读取的大小。",
        IpcErrorCode::FileNotText => "该文件不是可读取的 UTF-8 文本。",
        IpcErrorCode::FileWatchUnavailable => "文件监听服务暂时不可用，请重试。",
        IpcErrorCode::FileWatchNotFound => "未找到指定文件监听。",
        IpcErrorCode::FileOperationFailed => "文件操作失败，请重试。",
        IpcErrorCode::PluginNotFound => "未找到指定插件。",
        IpcErrorCode::PluginAlreadyInstalled => "该插件已经安装。",
        IpcErrorCode::PluginInvalidPackage => "插件包无效或与当前版本不兼容。",
        IpcErrorCode::PluginConflict => "插件当前状态不允许此操作。",
        IpcErrorCode::PluginExecutionFailed => "插件执行失败，请重试。",
        IpcErrorCode::PluginOperationFailed => "插件操作失败，请重试。",
        IpcErrorCode::UpdateNotConfigured => "当前构建未配置安全更新通道。",
        IpcErrorCode::UpdateBusy => "另一个更新操作正在进行中。",
        IpcErrorCode::UpdateNotAvailable => "没有可安装的更新，请先检查新版本。",
        IpcErrorCode::UpdateCheckFailed => "检查更新失败，请稍后重试。",
        IpcErrorCode::UpdateInstallFailed => "更新下载、验证或安装失败，请重试。",
        IpcErrorCode::UpdateOperationFailed => "更新服务暂时不可用，请重试。",
        IpcErrorCode::ImageOutputFailed => "无法写入输出文件，文件可能已存在或目录不可写。",
        IpcErrorCode::ImageOperationFailed => "图片处理失败，请重试。",
        IpcErrorCode::AuthRejected => "手机号或密码不正确。",
        IpcErrorCode::AuthUnavailable => "登录服务暂时不可用，请稍后重试。",
        IpcErrorCode::AuthStorageFailed => "无法保存登录状态，请重试。",
        IpcErrorCode::OfficeEngineUnavailable => "Office 文档引擎不可用。",
        IpcErrorCode::OfficeFormatUnsupported => "仅支持 DOCX、XLSX 和 PPTX 文档。",
        IpcErrorCode::OfficeDocumentNotFound => "找不到指定的 Office 文档。",
        IpcErrorCode::OfficeDocumentLocked => "Office 文档正在被其他程序使用。",
        IpcErrorCode::OfficeOutputConflict => "目标文件已存在。",
        IpcErrorCode::OfficeOperationTimeout => "Office 文档操作超时。",
        IpcErrorCode::OfficeOperationCancelled => "Office 文档操作已取消。",
        IpcErrorCode::OfficeOperationFailed => "Office 文档操作失败。",
        IpcErrorCode::ValidationFailed => "提交的数据无效，请检查后重试。",
        IpcErrorCode::UnknownError => "操作失败，请重试。",
    }
}
/// An IPC error: a stable code and a user-facing message.
#[derive(Debug, Clone, PartialEq, Eq)]
pub struct IpcError {
    pub code: IpcErrorCode,
    pub message: String,
}

/// The code a file error maps to.
pub open spec fn file_error_code(kind: FileServiceErrorKind) -> IpcErrorCode {
    match kind {
        FileServiceErrorKind::InvalidInput => IpcErrorCode::ValidationFailed,
        FileServiceErrorKind::NotAFile => IpcErrorCode::ValidationFailed,
        FileServiceErrorKind::NotADirectory => IpcErrorCode::ValidationFailed,
        FileServiceErrorKind::NotFound => IpcErrorCode::FileNotFound,
        FileServiceErrorKind::PermissionDenied => IpcErrorCode::FileAccessDenied,
        FileServiceErrorKind::TooLarge => IpcErrorCode::FileTooLarge,
        FileServiceErrorKind::NonUtf8 => IpcErrorCode::FileNotText,
        FileServiceErrorKind::WatchUnavailable => IpcErrorCode::FileWatchUnavailable,
        FileServiceErrorKind::WatchNotFound => IpcErrorCode::FileWatchNotFound,
        FileServiceErrorKind::Io => IpcErrorCode::FileOperationFailed,
    }
}

/// The code a plugin error maps to.
pub open spec fn plugin_error_code(kind: PluginServiceErrorKind) -> IpcErrorCode {
    match kind {
        PluginServiceErrorKind::InvalidInput => IpcErrorCode::ValidationFailed,
        PluginServiceErrorKind::InvalidManifest => IpcErrorCode::PluginInvalidPackage,
        PluginServiceErrorKind::PackageTooLarge => IpcErrorCode::PluginInvalidPackage,
        PluginServiceErrorKind::RuntimeRejected => IpcErrorCode::PluginInvalidPackage,
        PluginServiceErrorKind::NotFound => IpcErrorCode::PluginNotFound,
        PluginServiceErrorKind::AlreadyInstalled => IpcErrorCode::PluginAlreadyInstalled,
        PluginServiceErrorKind::Conflict => IpcErrorCode::PluginConflict,
        PluginServiceErrorKind::ExecutionFailed => IpcErrorCode::PluginExecutionFailed,
        PluginServiceErrorKind::Io => IpcErrorCode::PluginOperationFailed,
    }
}

/// The code an update error maps to.
pub open spec fn update_error_code(kind: UpdateServiceErrorKind) -> IpcErrorCode {
    match kind {
        UpdateServiceErrorKind::NotConfigured => IpcErrorCode::UpdateNotConfigured,
        UpdateServiceErrorKind::Busy => IpcErrorCode::UpdateBusy,
        UpdateServiceErrorKind::NoPendingUpdate => IpcErrorCode::UpdateNotAvailable,
        UpdateServiceErrorKind::CheckFailed => IpcErrorCode::UpdateCheckFailed,
        UpdateServiceErrorKind::InstallFailed => IpcErrorCode::UpdateInstallFailed,
        UpdateServiceErrorKind::Internal => IpcErrorCode::UpdateOperationFailed,
    }
}

/// The code an Office error maps to.
pub open spec fn office_error_code(kind: OfficeServiceErrorKind) -> IpcErrorCode {
    match kind {
        OfficeServiceErrorKind::EngineUnavailable => IpcErrorCode::OfficeEngineUnavailable,
        OfficeServiceErrorKind::FormatUnsupported => IpcErrorCode::OfficeFormatUnsupported,
        OfficeServiceErrorKind::DocumentNotFound => IpcErrorCode::OfficeDocumentNotFound,
        OfficeServiceErrorKind::DocumentLocked => IpcErrorCode::OfficeDocumentLocked,
        OfficeServiceErrorKind::OutputConflict => IpcErrorCode::OfficeOutputConflict,
        OfficeServiceErrorKind::Timeout => IpcErrorCode::OfficeOperationTimeout,
        OfficeServiceErrorKind::Cancelled => IpcErrorCode::OfficeOperationCancelled,
        OfficeServiceErrorKind::OperationFailed => IpcErrorCode::OfficeOperationFailed,
    }
}

/// The code an image error maps to.
pub open spec fn image_error_code(kind: ImageServiceErrorKind) -> IpcErrorCode {
    match kind {
        ImageServiceErrorKind::Validation => IpcErrorCode::ValidationFailed,
        ImageServiceErrorKind::Output => IpcErrorCode::ImageOutputFailed,
        _ => IpcErrorCode::ImageOperationFailed,
    }
}

/// The code an authentication error maps to.
pub open spec fn auth_error_code(kind: AuthServiceErrorKind) -> IpcErrorCode {
    match kind {
        AuthServiceErrorKind::Validation => IpcErrorCode::ValidationFailed,
        AuthServiceErrorKind::Rejected => IpcErrorCode::AuthRejected,
        AuthServiceErrorKind::Unavailable => IpcErrorCode::AuthUnavailable,
        AuthServiceErrorKind::Storage => IpcErrorCode::AuthStorageFailed,
    }
}

/// The code an application error of a configuration operation maps to; `fallback` is the
/// operation's own code.
pub open spec fn app_error_code(kind: AppErrorKind, fallback: IpcErrorCode) -> IpcErrorCode {
    match kind {
        AppErrorKind::Database => IpcErrorCode::DatabaseUnavailable,
        AppErrorKind::Validation => IpcErrorCode::ValidationFailed,
        _ => if fallback == IpcErrorCode::ConfigLoadFailed || fallback
            == IpcErrorCode::ConfigSaveFailed || fallback == IpcErrorCode::ConfigResetFailed {
            fallback
        } else {
            IpcErrorCode::UnknownError
        },
    }
}

impl IpcError {
    /// Whether this error is `code` with its standard message.
    pub open spec fn is_standard(&self, code: IpcErrorCode) -> bool {
        self.code == code && self.message@ == code_message(code)
    }

    pub fn new(code: IpcErrorCode, message: &str) -> (r: Self)
        ensures
            r.code == code,
            r.message@ == message@,
    {
        IpcError { code, message: message.to_owned() }
    }

    /// `code` with its standard message.
    pub fn with_code(code: IpcErrorCode) -> (r: Self)
        ensures
            r.is_standard(code),
    {
        IpcError::new(code, message_for(code))
    }

    pub fn validation() -> (r: Self)
        ensures
            r.is_standard(IpcErrorCode::ValidationFailed),
    {
        Self::with_code(IpcErrorCode::ValidationFailed)
    }

    pub fn unknown() -> (r: Self)
        ensures
            r.is_standard(IpcErrorCode::UnknownError),
    {
        Self::with_code(IpcErrorCode::UnknownError)
    }

    pub fn task_not_found() -> (r: Self)
        ensures
            r.is_standard(IpcErrorCode::TaskNotFound),
    {
        Self::with_code(IpcErrorCode::TaskNotFound)
    }

    pub fn task_queue_unavailable() -> (r: Self)
        ensures
            r.is_standard(IpcErrorCode::TaskQueueUnavailable),
    {
        Self::with_code(IpcErrorCode::TaskQueueUnavailable)
    }

    pub fn file_operation_failed() -> (r: Self)
        ensures
            r.is_standard(IpcErrorCode::FileOperationFailed),
    {
        Self::with_code(IpcErrorCode::FileOperationFailed)
    }

    pub fn plugin_operation_failed() -> (r: Self)
        ensures
            r.is_standard(IpcErrorCode::PluginOperationFailed),
    {
        Self::with_code(IpcErrorCode::PluginOperationFailed)
    }

    pub fn update_operation_failed() -> (r: Self)
        ensures
            r.is_standard(IpcErrorCode::UpdateOperationFailed),
    {
        Self::with_code(IpcErrorCode::UpdateOperationFailed)
    }

    pub fn image_operation_failed() -> (r: Self)
        ensures
            r.is_standard(IpcErrorCode::ImageOperationFailed),
    {
        Self::with_code(IpcErrorCode::ImageOperationFailed)
    }

    pub fn auth_unavailable() -> (r: Self)
        ensures
            r.is_standard(IpcErrorCode::AuthUnavailable),
    {
        Self::with_code(IpcErrorCode::AuthUnavailable)
    }

    pub fn office_operation_failed() -> (r: Self)
        ensures
            r.is_standard(IpcErrorCode::OfficeOperationFailed),
    {
        Self::with_code(IpcErrorCode::OfficeOperationFailed)
    }

    fn from_app_error(error: &AppError, fallback: IpcErrorCode) -> (r: Self)
        ensures
            r.is_standard(app_error_code(error.spec_kind(), fallback)),
    {
        match error.kind() {
            AppErrorKind::Database => Self::with_code(IpcErrorCode::DatabaseUnavailable),
            AppErrorKind::Validation => Self::validation(),
            AppErrorKind::Configuration | AppErrorKind::Internal => match fallback {
                IpcErrorCode::ConfigLoadFailed => Self::with_code(fallback),
                IpcErrorCode::ConfigSaveFailed => Self::with_code(fallback),
                IpcErrorCode::ConfigResetFailed => Self::with_code(fallback),
                _ => Self::unknown(),
            },
        }
    }

    pub fn for_config_load(error: &AppError) -> (r: Self)
        ensures
            r.is_standard(app_error_code(error.spec_kind(), IpcErrorCode::ConfigLoadFailed)),
    {
        Self::from_app_error(error, IpcErrorCode::ConfigLoadFailed)
    }

    pub fn for_config_save(error: &AppError) -> (r: Self)
        ensures
            r.is_standard(app_error_code(error.spec_kind(), IpcErrorCode::ConfigSaveFailed)),
    {
        Self::from_app_error(error, IpcErrorCode::ConfigSaveFailed)
    }

    pub fn for_config_reset(error: &AppError) -> (r: Self)
        ensures
            r.is_standard(app_error_code(error.spec_kind(), IpcErrorCode::ConfigResetFailed)),
    {
        Self::from_app_error(error, IpcErrorCode::ConfigResetFailed)
    }

    pub fn for_file_operation(error: &FileServiceError) -> (r: Self)
        ensures
            r.is_standard(file_error_code(error.spec_kind())),
    {
        let code = match error.kind() {
            FileServiceErrorKind::InvalidInput
            | FileServiceErrorKind::NotAFile
            | FileServiceErrorKind::NotADirectory => IpcErrorCode::ValidationFailed,
            FileServiceErrorKind::NotFound => IpcErrorCode::FileNotFound,
            FileServiceErrorKind::PermissionDenied => IpcErrorCode::FileAccessDenied,
            FileServiceErrorKind::TooLarge => IpcErrorCode::FileTooLarge,
            FileServiceErrorKind::NonUtf8 => IpcErrorCode::FileNotText,
            FileServiceErrorKind::WatchUnavailable => IpcErrorCode::FileWatchUnavailable,
            FileServiceErrorKind::WatchNotFound => IpcErrorCode::FileWatchNotFound,
            FileServiceErrorKind::Io => IpcErrorCode::FileOperationFailed,
        };
        Self::with_code(code)
    }

    pub fn for_plugin_operation(error: &PluginServiceError) -> (r: Self)
        ensures
            r.is_standard(plugin_error_code(error.spec_kind())),
    {
        let code = match error.kind() {
            PluginServiceErrorKind::InvalidInput => IpcErrorCode::ValidationFailed,
            PluginServiceErrorKind::InvalidManifest
            | PluginServiceErrorKind::PackageTooLarge
            | PluginServiceErrorKind::RuntimeRejected => IpcErrorCode::PluginInvalidPackage,
            PluginServiceErrorKind::NotFound => IpcErrorCode::PluginNotFound,
            PluginServiceErrorKind::AlreadyInstalled => IpcErrorCode::PluginAlreadyInstalled,
            PluginServiceErrorKind::Conflict => IpcErrorCode::PluginConflict,
            PluginServiceErrorKind::ExecutionFailed => IpcErrorCode::PluginExecutionFailed,
            PluginServiceErrorKind::Io => IpcErrorCode::PluginOperationFailed,
        };
        Self::with_code(code)
    }

    pub fn for_update_operation(error: &UpdateServiceError) -> (r: Self)
        ensures
            r.is_standard(update_error_code(error.spec_kind())),
    {
        let code = match error.kind() {
            UpdateServiceErrorKind::NotConfigured => IpcErrorCode::UpdateNotConfigured,
            UpdateServiceErrorKind::Busy => IpcErrorCode::UpdateBusy,
            UpdateServiceErrorKind::NoPendingUpdate => IpcErrorCode::UpdateNotAvailable,
            UpdateServiceErrorKind::CheckFailed => IpcErrorCode::UpdateCheckFailed,
            UpdateServiceErrorKind::InstallFailed => IpcErrorCode::UpdateInstallFailed,
            UpdateServiceErrorKind::Internal => IpcErrorCode::UpdateOperationFailed,
        };
        Self::with_code(code)
    }

    pub fn for_office_operation(error: &OfficeServiceError) -> (r: Self)
        ensures
            r.is_standard(office_error_code(error.spec_kind())),
    {
        let code = match error.kind() {
            OfficeServiceErrorKind::EngineUnavailable => IpcErrorCode::OfficeEngineUnavailable,
            OfficeServiceErrorKind::FormatUnsupported => IpcErrorCode::OfficeFormatUnsupported,
            OfficeServiceErrorKind::DocumentNotFound => IpcErrorCode::OfficeDocumentNotFound,
            OfficeServiceErrorKind::DocumentLocked => IpcErrorCode::OfficeDocumentLocked,
            OfficeServiceErrorKind::OutputConflict => IpcErrorCode::OfficeOutputConflict,
            OfficeServiceErrorKind::Timeout => IpcErrorCode::OfficeOperationTimeout,
            OfficeServiceErrorKind::Cancelled => IpcErrorCode::OfficeOperationCancelled,
            OfficeServiceErrorKind::OperationFailed => IpcErrorCode::OfficeOperationFailed,
        };
        Self::with_code(code)
    }

    /// An image error: its code, and the user-facing text of its kind.
    pub fn for_image_operation(error: &ImageServiceError) -> (r: Self)
        ensures
            r.code == image_error_code(error.spec_kind()),
            r.message@ == if error.spec_kind() == ImageServiceErrorKind::Validation {
                code_message(IpcErrorCode::ValidationFailed)
            } else {
                image_safe_message(error.spec_kind())
            },
    {
        match error.kind() {
            ImageServiceErrorKind::Validation => Self::validation(),
            ImageServiceErrorKind::Output => Self::new(IpcErrorCode::ImageOutputFailed, error.safe_message()),
            _ => Self::new(IpcErrorCode::ImageOperationFailed, error.safe_message()),
        }
    }

    /// An authentication error: its code, with the login service's own (user-facing) message
    /// for a refusal and the standard message otherwise.
    pub fn for_auth_operation(error: &AuthServiceError) -> (r: Self)
        ensures
            r.code == auth_error_code(error.spec_kind()),
            error.spec_kind() == AuthServiceErrorKind::Rejected ==> r.message@ == error.spec_message(),
            error.spec_kind() != AuthServiceErrorKind::Rejected ==> r.message@ == code_message(r.code),
    {
        match error.kind() {
            AuthServiceErrorKind::Validation => Self::validation(),
            AuthServiceErrorKind::Rejected => Self::new(IpcErrorCode::AuthRejected, error.message()),
            AuthServiceErrorKind::Unavailable => Self::auth_unavailable(),
            AuthServiceErrorKind::Storage => Self::with_code(IpcErrorCode::AuthStorageFailed),
        }
    }
}

} // verus!
