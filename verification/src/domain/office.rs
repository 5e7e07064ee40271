//! Office document formats, engine status and edit operations.
use vstd::prelude::*;

use crate::text::{ascii_lower_seq, eq_ignore_ascii_case};

verus! {

#[derive(Debug, Clone, Copy, PartialEq, Eq, Structural)]
pub enum OfficeDocumentFormat {
    Word,
    Spreadsheet,
    Presentation,
}

/// The format named by a file extension, compared without regard to ASCII case.
pub open spec fn format_for_extension(extension: Seq<char>) -> Option<OfficeDocumentFormat> {
    let lower = ascii_lower_seq(extension);
    if lower == "docx"@ {
        Some(OfficeDocumentFormat::Word)
    } else if lower == "xlsx"@ {
        Some(OfficeDocumentFormat::Spreadsheet)
    } else if lower == "pptx"@ {
        Some(OfficeDocumentFormat::Presentation)
    } else {
        None
    }
}

impl OfficeDocumentFormat {
    pub fn from_extension(extension: &str) -> (r: Option<Self>)
        ensures
            r == format_for_extension(extension@),
    {
        if eq_ignore_ascii_case(extension, "docx") {
            Some(OfficeDocumentFormat::Word)
        } else if eq_ignore_ascii_case(extension, "xlsx") {
            Some(OfficeDocumentFormat::Spreadsheet)
        } else if eq_ignore_ascii_case(extension, "pptx") {
            Some(OfficeDocumentFormat::Presentation)
        } else {
            None
        }
    }
}

/// A document path together with its recognized format.
#[derive(Debug, PartialEq, Eq)]
pub struct OfficeDocument {
    pub path: String,
    pub format: OfficeDocumentFormat,
}

impl Clone for OfficeDocument {
    fn clone(&self) -> (r: Self)
        ensures
            r == *self,
    {
        OfficeDocument { path: self.path.clone(), format: self.format }
    }
}

#[derive(Debug, Clone, Copy, PartialEq, Eq, Structural)]
pub enum OfficeEngineState {
    Ready,
    Unavailable,
}

#[derive(Debug, PartialEq, Eq)]
pub struct OfficeEngineStatus {
    pub state: OfficeEngineState,
    pub version: Option<String>,
}

impl OfficeEngineStatus {
    pub fn ready(version: &str) -> (r: Self)
        ensures
            r.state == OfficeEngineState::Ready,
            r.version matches Some(v) && v@ == version@,
    {
        Self { state: OfficeEngineState::Ready, version: Some(version.to_owned()) }
    }

    pub fn unavailable() -> (r: Self)
        ensures
            r.state == OfficeEngineState::Unavailable,
            r.version is None,
    {
        Self { state: OfficeEngineState::Unavailable, version: None }
    }
}

#[derive(Debug, Clone, Copy, PartialEq, Eq, Structural)]
pub enum OfficeLifecycleOperation {
    Open,
    Close,
}

#[derive(Debug, Clone, Copy, PartialEq, Eq, Structural)]
pub struct OfficeOperationResult {
    pub operation: OfficeLifecycleOperation,
    pub succeeded: bool,
    pub owns_session: bool,
}

impl OfficeOperationResult {
    pub fn succeeded(operation: OfficeLifecycleOperation) -> (r: Self)
        ensures
            r == (OfficeOperationResult { operation, succeeded: true, owns_session: false }),
    {
        Self { operation, succeeded: true, owns_session: false }
    }

    pub fn opened(owns_session: bool) -> (r: Self)
        ensures
            r == (OfficeOperationResult {
                operation: OfficeLifecycleOperation::Open,
                succeeded: true,
                owns_session,
            }),
    {
        Self { operation: OfficeLifecycleOperation::Open, succeeded: true, owns_session }
    }
}

/// One whitelisted document edit.
#[derive(Debug, PartialEq, Eq)]
pub enum OfficeDocumentOperation {
    AddWordParagraph { text: String },
    SetSpreadsheetCell { cell: String, value: String },
    AddPresentationSlide { title: String },
    AddPresentationText { slide: u32, text: String },
}

/// The document format each operation applies to.
pub open spec fn operation_format(operation: OfficeDocumentOperation) -> OfficeDocumentFormat {
    match operation {
        OfficeDocumentOperation::AddWordParagraph { .. } => OfficeDocumentFormat::Word,
        OfficeDocumentOperation::SetSpreadsheetCell { .. } => OfficeDocumentFormat::Spreadsheet,
        OfficeDocumentOperation::AddPresentationSlide { .. } => OfficeDocumentFormat::Presentation,
        OfficeDocumentOperation::AddPresentationText { .. } => OfficeDocumentFormat::Presentation,
    }
}

impl OfficeDocumentOperation {
    pub fn supports_format(&self, format: OfficeDocumentFormat) -> (r: bool)
        ensures
            r == (operation_format(*self) == format),
    {
        let own = match self {
            OfficeDocumentOperation::AddWordParagraph { .. } => OfficeDocumentFormat::Word,
            OfficeDocumentOperation::SetSpreadsheetCell { .. } => OfficeDocumentFormat::Spreadsheet,
            OfficeDocumentOperation::AddPresentationSlide { .. } => OfficeDocumentFormat::Presentation,
            OfficeDocumentOperation::AddPresentationText { .. } => OfficeDocumentFormat::Presentation,
        };
        own == format
    }
}

impl Clone for OfficeDocumentOperation {
    fn clone(&self) -> (r: Self)
        ensures
            r == *self,
    {
        match self {
            OfficeDocumentOperation::AddWordParagraph { text } => {
                OfficeDocumentOperation::AddWordParagraph { text: text.clone() }
            },
            OfficeDocumentOperation::SetSpreadsheetCell { cell, value } => {
                OfficeDocumentOperation::SetSpreadsheetCell { cell: cell.clone(), value: value.clone() }
            },
            OfficeDocumentOperation::AddPresentationSlide { title } => {
                OfficeDocumentOperation::AddPresentationSlide { title: title.clone() }
            },
            OfficeDocumentOperation::AddPresentationText { slide, text } => {
                OfficeDocumentOperation::AddPresentationText { slide: *slide, text: text.clone() }
            },
        }
    }
}

/// The structure of an inspected document, as the engine's JSON text.
#[derive(Debug, PartialEq, Eq)]
pub struct OfficeInspection {
    pub format: OfficeDocumentFormat,
    pub structure: String,
}

/// A rendered page preview.
#[derive(Debug, PartialEq, Eq)]
pub struct OfficePreview {
    pub mime_type: String,
    pub data_url: String,
}

} // verus!
