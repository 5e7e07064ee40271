//! The request and result shapes of the desktop IPC commands.
use vstd::prelude::*;

verus! {

#[derive(Debug, PartialEq, Eq)]
pub struct ReadTextFileRequest {
    pub path: String,
    pub max_bytes: Option<u64>,
}

#[derive(Debug, PartialEq, Eq)]
pub struct IndexFilesRequest {
    pub root: String,
    pub max_entries: Option<usize>,
    pub max_depth: Option<usize>,
}

/// A watch request; watches are not recursive unless asked.
#[derive(Debug, PartialEq, Eq)]
pub struct StartFileWatchRequest {
    pub path: String,
    pub recursive: bool,
}

#[derive(Debug, PartialEq, Eq)]
pub struct InstallPluginRequest {
    pub manifest_path: String,
}

#[derive(Debug, PartialEq, Eq)]
pub struct ExecutePluginCommandRequest {
    pub plugin_id: String,
    pub command: String,
}

/// An installation request; the application restarts afterwards only when asked.
#[derive(Debug, Clone, Copy, PartialEq, Eq, Structural)]
pub struct InstallUpdateRequest {
    pub restart: bool,
}

#[derive(Debug, PartialEq, Eq)]
pub struct CloseOfficeDocumentRequest {
    pub path: String,
}

#[derive(Debug, PartialEq, Eq)]
pub struct CreateOfficeDocumentRequest {
    pub path: String,
}

#[derive(Debug, PartialEq, Eq)]
pub struct InspectOfficeDocumentRequest {
    pub path: String,
}

#[derive(Debug, PartialEq, Eq)]
pub struct ApplyOfficeOperationsRequest {
    pub path: String,
    pub output_path: String,
    pub operations: Vec<crate::domain::office::OfficeDocumentOperation>,
}

#[derive(Debug, PartialEq, Eq)]
pub struct RenderOfficePreviewRequest {
    pub path: String,
    pub page: u32,
}

#[derive(Debug, Clone, Copy, PartialEq, Eq, Structural)]
pub enum OfficeProgressStage {
    Creating,
    Inspecting,
    Applying,
    Rendering,
    Closing,
    Completed,
}

#[derive(Debug, Clone, Copy, PartialEq, Eq, Structural)]
pub struct OfficeProgress {
    pub stage: OfficeProgressStage,
}

#[derive(Debug, Clone, Copy, PartialEq, Eq, Structural)]
pub struct CloseOfficeDocumentResult {
    pub succeeded: bool,
}

#[derive(Debug, Clone, Copy, PartialEq, Eq, Structural)]
pub struct CreateOfficeDocumentResult {
    pub succeeded: bool,
}

#[derive(Debug, Clone, Copy, PartialEq, Eq, Structural)]
pub struct ApplyOfficeOperationsResult {
    pub succeeded: bool,
    pub operation_count: usize,
}

} // verus!
