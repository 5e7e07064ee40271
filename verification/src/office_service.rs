//! The decisions of the Office document service: which requests are refused before the
//! engine starts, how engine failures map to stable errors, which document sessions the
//! service owns and must close, and when a staged result may be committed.
//!
//! The engine itself runs as a child process and every step that touches it or the
//! filesystem is asynchronous; the caller performs those steps and hands their outcomes
//! to the functions here.
use vstd::prelude::*;

use crate::domain::office::{
    format_for_extension, operation_format, OfficeDocumentFormat, OfficeDocumentOperation,
    OfficeEngineStatus, OfficeLifecycleOperation, OfficeOperationResult, OfficePreview,
};
use crate::text::{chars_of, is_ascii_digit, is_ascii_digit_char, is_ascii_uppercase, is_ascii_uppercase_char, str_eq};
use vstd::utf8::encode_utf8;
use base64::Engine;

verus! {

pub const MAX_BATCH_OPERATIONS: usize = 100;

pub const MAX_OPERATION_TEXT_BYTES: usize = 16 * 1024;

pub const MAX_BATCH_TEXT_BYTES: usize = 16 * 1024;

pub const MAX_PREVIEW_BYTES: u64 = 16 * 1024 * 1024;

pub const MAX_PREVIEW_PAGE: u32 = 10_000;

/// Time limit of an ordinary engine command, in milliseconds.
pub const DEFAULT_TIMEOUT_MS: u64 = 30_000;

/// Time limit of opening a document, in milliseconds.
pub const OPEN_TIMEOUT_MS: u64 = 8_000;

/// Time limit of the startup version probe, in milliseconds.
pub const PROBE_TIMEOUT_MS: u64 = 2_000;

/// Largest spreadsheet column number (`XFD`).
pub const MAX_SPREADSHEET_COLUMN: u32 = 16_384;

/// Largest spreadsheet row number.
pub const MAX_SPREADSHEET_ROW: u32 = 1_048_576;

#[derive(Debug, Clone, Copy, PartialEq, Eq, Structural)]
pub enum OfficeRuntimeErrorKind {
    MissingSidecar,
    VersionMismatch,
    Spawn,
    Timeout,
    Cancelled,
    NonZeroExit,
    Crashed,
    OutputLimit,
    InvalidJson,
    Io,
}

/// A failure of the document engine process.
#[derive(Debug, Clone, Copy, PartialEq, Eq, Structural)]
pub struct OfficeRuntimeError {
    kind: OfficeRuntimeErrorKind,
}

pub open spec fn runtime_error_text(kind: OfficeRuntimeErrorKind) -> Seq<char> {
    match kind {
        OfficeRuntimeErrorKind::MissingSidecar => "Office document engine is unavailable"@,
        OfficeRuntimeErrorKind::VersionMismatch => "Office document engine version is incompatible"@,
        OfficeRuntimeErrorKind::Spawn => "Office document engine could not be started"@,
        OfficeRuntimeErrorKind::Timeout => "Office document operation timed out"@,
        OfficeRuntimeErrorKind::Cancelled => "Office document operation was cancelled"@,
        OfficeRuntimeErrorKind::NonZeroExit => "Office document operation failed"@,
        OfficeRuntimeErrorKind::Crashed => "Office document operation failed"@,
        OfficeRuntimeErrorKind::OutputLimit => "Office document engine produced too much output"@,
        OfficeRuntimeErrorKind::InvalidJson => "Office document engine returned invalid data"@,
        OfficeRuntimeErrorKind::Io => "Office document engine communication failed"@,
    }
}

impl OfficeRuntimeError {
    pub closed spec fn spec_kind(&self) -> OfficeRuntimeErrorKind {
        self.kind
    }

    pub fn new(kind: OfficeRuntimeErrorKind) -> (r: Self)
        ensures
            r.spec_kind() == kind,
    {
        OfficeRuntimeError { kind }
    }

    pub fn kind(&self) -> (r: OfficeRuntimeErrorKind)
        ensures
            r == self.spec_kind(),
    {
        self.kind
    }

    /// The description of this failure.
    pub fn text(&self) -> (r: &'static str)
        ensures
            r@ == runtime_error_text(self.spec_kind()),
    {
        match self.kind {
            OfficeRuntimeErrorKind::MissingSidecar => "Office document engine is unavailable",
            OfficeRuntimeErrorKind::VersionMismatch => "Office document engine version is incompatible",
            OfficeRuntimeErrorKind::Spawn => "Office document engine could not be started",
            OfficeRuntimeErrorKind::Timeout => "Office document operation timed out",
            OfficeRuntimeErrorKind::Cancelled => "Office document operation was cancelled",
            OfficeRuntimeErrorKind::NonZeroExit => "Office document operation failed",
            OfficeRuntimeErrorKind::Crashed => "Office document operation failed",
            OfficeRuntimeErrorKind::OutputLimit => "Office document engine produced too much output",
            OfficeRuntimeErrorKind::InvalidJson => "Office document engine returned invalid data",
            OfficeRuntimeErrorKind::Io => "Office document engine communication failed",
        }
    }
}

#[derive(Debug, Clone, Copy, PartialEq, Eq, Structural)]
pub enum OfficeServiceErrorKind {
    EngineUnavailable,
    FormatUnsupported,
    DocumentNotFound,
    DocumentLocked,
    OutputConflict,
    Timeout,
    Cancelled,
    OperationFailed,
}

/// A failure of a document request; only its kind leaves the service.
#[derive(Debug, Clone, Copy, PartialEq, Eq, Structural)]
pub struct OfficeServiceError {
    kind: OfficeServiceErrorKind,
}

pub open spec fn office_safe_message(kind: OfficeServiceErrorKind) -> Seq<char> {
    match kind {
        OfficeServiceErrorKind::EngineUnavailable => "Office 文档引擎不可用。"@,
        OfficeServiceErrorKind::FormatUnsupported => "仅支持 DOCX、XLSX 和 PPTX 文档。"@,
        OfficeServiceErrorKind::DocumentNotFound => "找不到指定的 Office 文档。"@,
        OfficeServiceErrorKind::DocumentLocked => "Office 文档正在被其他程序使用。"@,
        OfficeServiceErrorKind::OutputConflict => "目标文件已存在。"@,
        OfficeServiceErrorKind::Timeout => "Office 文档操作超时。"@,
        OfficeServiceErrorKind::Cancelled => "Office 文档操作已取消。"@,
        OfficeServiceErrorKind::OperationFailed => "Office 文档操作失败。"@,
    }
}

/// The service error an engine failure becomes.
pub open spec fn service_kind_for(kind: OfficeRuntimeErrorKind) -> OfficeServiceErrorKind {
    match kind {
        OfficeRuntimeErrorKind::MissingSidecar => OfficeServiceErrorKind::EngineUnavailable,
        OfficeRuntimeErrorKind::VersionMismatch => OfficeServiceErrorKind::EngineUnavailable,
        OfficeRuntimeErrorKind::Spawn => OfficeServiceErrorKind::EngineUnavailable,
        OfficeRuntimeErrorKind::Timeout => OfficeServiceErrorKind::Timeout,
        OfficeRuntimeErrorKind::Cancelled => OfficeServiceErrorKind::Cancelled,
        _ => OfficeServiceErrorKind::OperationFailed,
    }
}

impl OfficeServiceError {
    pub closed spec fn spec_kind(&self) -> OfficeServiceErrorKind {
        self.kind
    }

    pub closed spec fn spec_new(kind: OfficeServiceErrorKind) -> Self {
        OfficeServiceError { kind }
    }

    pub fn new(kind: OfficeServiceErrorKind) -> (r: Self)
        ensures
            r.spec_kind() == kind,
    {
        OfficeServiceError { kind }
    }

    pub fn kind(&self) -> (r: OfficeServiceErrorKind)
        ensures
            r == self.spec_kind(),
    {
        self.kind
    }

    /// The user-facing text of this error.
    pub fn safe_message(&self) -> (r: &'static str)
        ensures
            r@ == office_safe_message(self.spec_kind()),
    {
        match self.kind {
            OfficeServiceErrorKind::EngineUnavailable => "Office 文档引擎不可用。",
            OfficeServiceErrorKind::FormatUnsupported => "仅支持 DOCX、XLSX 和 PPTX 文档。",
            OfficeServiceErrorKind::DocumentNotFound => "找不到指定的 Office 文档。",
            OfficeServiceErrorKind::DocumentLocked => "Office 文档正在被其他程序使用。",
            OfficeServiceErrorKind::OutputConflict => "目标文件已存在。",
            OfficeServiceErrorKind::Timeout => "Office 文档操作超时。",
            OfficeServiceErrorKind::Cancelled => "Office 文档操作已取消。",
            OfficeServiceErrorKind::OperationFailed => "Office 文档操作失败。",
        }
    }

    /// The service error for an engine failure.
    pub fn from_runtime(error: OfficeRuntimeError) -> (r: Self)
        ensures
            r.spec_kind() == service_kind_for(error.spec_kind()),
    {
        let kind = match error.kind() {
            OfficeRuntimeErrorKind::MissingSidecar
            | OfficeRuntimeErrorKind::VersionMismatch
            | OfficeRuntimeErrorKind::Spawn => OfficeServiceErrorKind::EngineUnavailable,
            OfficeRuntimeErrorKind::Timeout => OfficeServiceErrorKind::Timeout,
            OfficeRuntimeErrorKind::Cancelled => OfficeServiceErrorKind::Cancelled,
            OfficeRuntimeErrorKind::NonZeroExit
            | OfficeRuntimeErrorKind::Crashed
            | OfficeRuntimeErrorKind::OutputLimit
            | OfficeRuntimeErrorKind::InvalidJson
            | OfficeRuntimeErrorKind::Io => OfficeServiceErrorKind::OperationFailed,
        };
        OfficeServiceError::new(kind)
    }
}

impl From<OfficeRuntimeError> for OfficeServiceError {
    fn from(error: OfficeRuntimeError) -> (r: Self) {
        OfficeServiceError::from_runtime(error)
    }
}

impl vstd::std_specs::convert::FromSpecImpl<OfficeRuntimeError> for OfficeServiceError {
    open spec fn obeys_from_spec() -> bool {
        true
    }

    open spec fn from_spec(error: OfficeRuntimeError) -> OfficeServiceError {
        OfficeServiceError::spec_new(service_kind_for(error.spec_kind()))
    }
}

pub fn operation_failed() -> (r: OfficeServiceError)
    ensures
        r.spec_kind() == OfficeServiceErrorKind::OperationFailed,
{
    OfficeServiceError::new(OfficeServiceErrorKind::OperationFailed)
}

/// The file extension a new document of `format` is written with.
pub open spec fn format_extension(format: OfficeDocumentFormat) -> Seq<char> {
    match format {
        OfficeDocumentFormat::Word => "docx"@,
        OfficeDocumentFormat::Spreadsheet => "xlsx"@,
        OfficeDocumentFormat::Presentation => "pptx"@,
    }
}

pub fn extension_for(format: OfficeDocumentFormat) -> (r: &'static str)
    ensures
        r@ == format_extension(format),
{
    match format {
        OfficeDocumentFormat::Word => "docx",
        OfficeDocumentFormat::Spreadsheet => "xlsx",
        OfficeDocumentFormat::Presentation => "pptx",
    }
}

/// The format of a document path's extension; an unknown or missing extension is refused.
pub fn document_format(extension: Option<&str>) -> (r: Result<OfficeDocumentFormat, OfficeServiceError>)
    ensures
        match extension {
            Some(text) => match format_for_extension(text@) {
                Some(format) => r == Ok::<OfficeDocumentFormat, OfficeServiceError>(format),
                None => r matches Err(e) && e.spec_kind() == OfficeServiceErrorKind::FormatUnsupported,
            },
            None => r matches Err(e) && e.spec_kind() == OfficeServiceErrorKind::FormatUnsupported,
        },
{
    match extension {
        Some(text) => match OfficeDocumentFormat::from_extension(text) {
            Some(format) => Ok(format),
            None => Err(OfficeServiceError::new(OfficeServiceErrorKind::FormatUnsupported)),
        },
        None => Err(OfficeServiceError::new(OfficeServiceErrorKind::FormatUnsupported)),
    }
}

// ---- spreadsheet cell references ----

/// Index of the first ASCII digit of `s`, or its length when it has none.
pub open spec fn first_digit_index(s: Seq<char>) -> int
    decreases s.len(),
{
    if s.len() == 0 {
        0
    } else if is_ascii_digit_char(s[0]) {
        0
    } else {
        1 + first_digit_index(s.drop_first())
    }
}

/// The column number of uppercase letters, `A` = 1 ... `Z` = 26, `AA` = 27 ...
pub open spec fn column_number(letters: Seq<char>) -> nat
    decreases letters.len(),
{
    if letters.len() == 0 {
        0
    } else {
        column_number(letters.drop_last()) * 26 + ((letters.last() as int - 'A' as int + 1) as nat)
    }
}

/// The value of decimal digits.
pub open spec fn decimal_value(digits: Seq<char>) -> nat
    decreases digits.len(),
{
    if digits.len() == 0 {
        0
    } else {
        decimal_value(digits.drop_last()) * 10 + ((digits.last() as int - '0' as int) as nat)
    }
}

/// An A1-style reference inside the sheet bounds: one to three uppercase letters naming a
/// column up to `XFD`, then one to seven digits naming a row from 1 to 1048576.
pub open spec fn is_valid_cell_reference(cell: Seq<char>) -> bool {
    let split = first_digit_index(cell);
    let column = cell.subrange(0, split);
    let row = cell.subrange(split, cell.len() as int);
    &&& 1 <= column.len() <= 3
    &&& forall|i: int| 0 <= i < column.len() ==> is_ascii_uppercase_char(#[trigger] column[i])
    &&& column_number(column) <= MAX_SPREADSHEET_COLUMN
    &&& 1 <= row.len() <= 7
    &&& forall|i: int| 0 <= i < row.len() ==> is_ascii_digit_char(#[trigger] row[i])
    &&& 1 <= decimal_value(row) <= MAX_SPREADSHEET_ROW
}

proof fn lemma_first_digit_index(s: Seq<char>)
    ensures
        0 <= first_digit_index(s) <= s.len(),
        forall|i: int| 0 <= i < first_digit_index(s) ==> !is_ascii_digit_char(#[trigger] s[i]),
        first_digit_index(s) < s.len() ==> is_ascii_digit_char(s[first_digit_index(s)]),
    decreases s.len(),
{
    if s.len() > 0 && !is_ascii_digit_char(s[0]) {
        lemma_first_digit_index(s.drop_first());
        assert forall|i: int| 0 <= i < first_digit_index(s) implies !is_ascii_digit_char(
            #[trigger] s[i],
        ) by {
            if i > 0 {
                assert(s[i] == s.drop_first()[i - 1]);
            }
        }
    }
}

proof fn lemma_column_number_bound(letters: Seq<char>)
    requires
        forall|i: int| 0 <= i < letters.len() ==> is_ascii_uppercase_char(#[trigger] letters[i]),
        letters.len() <= 3,
    ensures
        column_number(letters) <= 26 * 26 * 26 + 26 * 26 + 26,
    decreases letters.len(),
{
    if letters.len() > 0 {
        let rest = letters.drop_last();
        assert forall|i: int| 0 <= i < rest.len() implies is_ascii_uppercase_char(#[trigger] rest[i]) by {
            assert(rest[i] == letters[i]);
        }
        lemma_column_number_bound(rest);
        assert(is_ascii_uppercase_char(letters[letters.len() - 1]));
        if letters.len() == 1 {
            assert(column_number(rest) == 0);
        } else if letters.len() == 2 {
            assert(column_number(rest) <= 26) by {
                lemma_column_number_bound(rest);
                assert(column_number(rest.drop_last()) == 0);
            }
        } else {
            assert(column_number(rest) <= 26 * 26 + 26) by {
                let rest2 = rest.drop_last();
                assert forall|i: int| 0 <= i < rest2.len() implies is_ascii_uppercase_char(
                    #[trigger] rest2[i],
                ) by {
                    assert(rest2[i] == letters[i]);
                }
                assert(column_number(rest2.drop_last()) == 0);
                assert(column_number(rest2) <= 26);
            }
        }
    }
}

proof fn lemma_decimal_value_bound(digits: Seq<char>)
    requires
        forall|i: int| 0 <= i < digits.len() ==> is_ascii_digit_char(#[trigger] digits[i]),
    ensures
        decimal_value(digits) < vstd::arithmetic::power::pow(10, digits.len()),
    decreases digits.len(),
{
    vstd::arithmetic::power::lemma_pow0(10);
    if digits.len() > 0 {
        let rest = digits.drop_last();
        assert forall|i: int| 0 <= i < rest.len() implies is_ascii_digit_char(#[trigger] rest[i]) by {
            assert(rest[i] == digits[i]);
        }
        lemma_decimal_value_bound(rest);
        vstd::arithmetic::power::lemma_pow_adds(10, rest.len(), 1);
        vstd::arithmetic::power::lemma_pow1(10);
        assert(is_ascii_digit_char(digits[digits.len() - 1]));
        let p = vstd::arithmetic::power::pow(10, rest.len());
        assert(decimal_value(rest) + 1 <= p);
        assert((decimal_value(rest) + 1) * 10 <= p * 10) by (nonlinear_arith)
            requires
                decimal_value(rest) + 1 <= p,
        ;
    }
}

/// Whether `cell` is an A1-style reference inside the sheet bounds.
pub fn valid_cell_reference(cell: &str) -> (r: bool)
    ensures
        r == is_valid_cell_reference(cell@),
{
    let chars = chars_of(cell);
    let n = chars.len();
    let mut split: usize = 0;
    while split < n && !is_ascii_digit(chars[split])
        invariant
            n == chars@.len(),
            chars@ == cell@,
            0 <= split <= n,
            forall|i: int| 0 <= i < split ==> !is_ascii_digit_char(#[trigger] chars@[i]),
        decreases n - split,
    {
        split = split + 1;
    }
    proof {
        lemma_first_digit_index(cell@);
        let f = first_digit_index(cell@);
        if f < split {
            assert(!is_ascii_digit_char(cell@[f]));
        }
        if split < f {
            assert(!is_ascii_digit_char(cell@[split as int]));
        }
        assert(split == f);
    }
    let ghost column = cell@.subrange(0, split as int);
    let ghost row = cell@.subrange(split as int, n as int);
    if split == 0 || split > 3 || n - split == 0 || n - split > 7 {
        return false;
    }
    // column letters
    assert(column.subrange(0, 0) =~= Seq::<char>::empty());
    let mut value: u32 = 0;
    let mut i: usize = 0;
    while i < split
        invariant
            n == chars@.len(),
            chars@ == cell@,
            column == cell@.subrange(0, split as int),
            split == first_digit_index(cell@),
            1 <= split <= 3,
            split <= n,
            0 <= i <= split,
            forall|k: int| 0 <= k < i ==> is_ascii_uppercase_char(#[trigger] column[k]),
            value == column_number(column.subrange(0, i as int)),
            value <= 26 * 26 * 26 + 26 * 26 + 26,
        decreases split - i,
    {
        let c = chars[i];
        if !is_ascii_uppercase(c) {
            assert(column[i as int] == c);
            return false;
        }
        proof {
            let prefix = column.subrange(0, i as int);
            let next = column.subrange(0, i + 1);
            assert(next.drop_last() =~= prefix);
            assert(next.last() == c);
            assert forall|k: int| 0 <= k < next.len() implies is_ascii_uppercase_char(
                #[trigger] next[k],
            ) by {
                assert(next[k] == column[k]);
            }
            lemma_column_number_bound(next);
        }
        value = value * 26 + ((c as u32) - ('A' as u32) + 1);
        i = i + 1;
    }
    assert(column.subrange(0, split as int) =~= column);
    if value > MAX_SPREADSHEET_COLUMN {
        return false;
    }
    // row digits
    proof {
        vstd::arithmetic::power::lemma_pow0(10);
        assert(row.subrange(0, 0) =~= Seq::<char>::empty());
    }
    let mut row_value: u32 = 0;
    let mut j: usize = split;
    while j < n
        invariant
            n == chars@.len(),
            chars@ == cell@,
            row == cell@.subrange(split as int, n as int),
            column == cell@.subrange(0, split as int),
            split == first_digit_index(cell@),
            value == column_number(column),
            value <= MAX_SPREADSHEET_COLUMN,
            1 <= split <= 3,
            forall|k: int| 0 <= k < split ==> is_ascii_uppercase_char(#[trigger] column[k]),
            1 <= n - split <= 7,
            split <= j <= n,
            forall|k: int| 0 <= k < j - split ==> is_ascii_digit_char(#[trigger] row[k]),
            row_value == decimal_value(row.subrange(0, j - split)),
            row_value < vstd::arithmetic::power::pow(10, (j - split) as nat),
        decreases n - j,
    {
        let c = chars[j];
        if !is_ascii_digit(c) {
            assert(row[j - split] == c);
            return false;
        }
        proof {
            let prefix = row.subrange(0, j - split);
            let next = row.subrange(0, j - split + 1);
            assert(next.drop_last() =~= prefix);
            assert(next.last() == c);
            assert forall|k: int| 0 <= k < next.len() implies is_ascii_digit_char(#[trigger] next[k]) by {
                assert(next[k] == row[k]);
            }
            lemma_decimal_value_bound(next);
            vstd::arithmetic::power::lemma_pow_increases(10, next.len(), 7);
            assert(vstd::arithmetic::power::pow(10, 7) == 10_000_000) by {
                vstd::arithmetic::power::lemma_pow_positive(10, 7);
                reveal_with_fuel(vstd::arithmetic::power::pow, 8);
            }
        }
        row_value = row_value * 10 + ((c as u32) - ('0' as u32));
        j = j + 1;
    }
    assert(row.subrange(0, (n - split) as int) =~= row);
    1 <= row_value && row_value <= MAX_SPREADSHEET_ROW
}

// ---- edit batches ----

/// Length in bytes of text, as the engine receives it (a length that fits in `usize`).
pub open spec fn utf8_len(text: Seq<char>) -> nat {
    (encode_utf8(text).len() as usize) as nat
}

/// The text an operation carries, counted towards the batch limit.
pub open spec fn operation_text_bytes(operation: OfficeDocumentOperation) -> nat {
    match operation {
        OfficeDocumentOperation::AddWordParagraph { text } => utf8_len(text@),
        OfficeDocumentOperation::SetSpreadsheetCell { value, .. } => utf8_len(value@),
        OfficeDocumentOperation::AddPresentationSlide { title } => utf8_len(title@),
        OfficeDocumentOperation::AddPresentationText { text, .. } => utf8_len(text@),
    }
}

/// An operation's own limits: non-empty text within the per-operation limit, a valid cell, and
/// slide numbers counting from 1.
pub open spec fn operation_within_limits(operation: OfficeDocumentOperation) -> bool {
    match operation {
        OfficeDocumentOperation::AddWordParagraph { text } => 0 < utf8_len(text@)
            <= MAX_OPERATION_TEXT_BYTES,
        OfficeDocumentOperation::SetSpreadsheetCell { cell, value } => is_valid_cell_reference(
            cell@,
        ) && utf8_len(value@) <= MAX_OPERATION_TEXT_BYTES,
        OfficeDocumentOperation::AddPresentationSlide { title } => 0 < utf8_len(title@)
            <= MAX_OPERATION_TEXT_BYTES,
        OfficeDocumentOperation::AddPresentationText { slide, text } => 0 < utf8_len(text@)
            <= MAX_OPERATION_TEXT_BYTES && slide != 0,
    }
}

/// The first problem of the operations from `i` on, given `total` text bytes before them.
pub open spec fn batch_error_from(
    format: OfficeDocumentFormat,
    operations: Seq<OfficeDocumentOperation>,
    i: int,
    total: nat,
) -> Option<OfficeServiceErrorKind>
    decreases operations.len() - i,
{
    if i < 0 || i >= operations.len() {
        None
    } else {
        let operation = operations[i];
        let next = total + operation_text_bytes(operation);
        if operation_format(operation) != format {
            Some(OfficeServiceErrorKind::FormatUnsupported)
        } else if !operation_within_limits(operation) || next > MAX_BATCH_TEXT_BYTES {
            Some(OfficeServiceErrorKind::OperationFailed)
        } else {
            batch_error_from(format, operations, i + 1, next)
        }
    }
}

/// The first problem of an edit batch for a document of `format`, if any: the batch holds 1 to
/// 100 operations for that format, each within its limits and all together within the batch
/// text limit.
pub open spec fn batch_error(
    format: OfficeDocumentFormat,
    operations: Seq<OfficeDocumentOperation>,
) -> Option<OfficeServiceErrorKind> {
    if operations.len() == 0 || operations.len() > MAX_BATCH_OPERATIONS {
        Some(OfficeServiceErrorKind::OperationFailed)
    } else {
        batch_error_from(format, operations, 0, 0)
    }
}

fn text_bytes(text: &String) -> (r: usize)
    ensures
        r == utf8_len(text@),
{
    text.as_str().len()
}

/// Checks an edit batch before the engine starts.
pub fn validate_operations(format: OfficeDocumentFormat, operations: &[OfficeDocumentOperation]) -> (r:
    Result<(), OfficeServiceError>)
    ensures
        match batch_error(format, operations@) {
            None => r is Ok,
            Some(kind) => r matches Err(e) && e.spec_kind() == kind,
        },
{
    if operations.len() == 0 || operations.len() > MAX_BATCH_OPERATIONS {
        return Err(operation_failed());
    }
    let mut total: usize = 0;
    let mut i: usize = 0;
    while i < operations.len()
        invariant
            0 <= i <= operations@.len(),
            total <= MAX_BATCH_TEXT_BYTES,
            batch_error(format, operations@) == batch_error_from(
                format,
                operations@,
                i as int,
                total as nat,
            ),
        decreases operations@.len() - i,
    {
        let operation = &operations[i];
        if !operation.supports_format(format) {
            return Err(OfficeServiceError::new(OfficeServiceErrorKind::FormatUnsupported));
        }
        let (valid, bytes) = match operation {
            OfficeDocumentOperation::AddWordParagraph { text } => {
                let bytes = text_bytes(text);
                (bytes > 0 && bytes <= MAX_OPERATION_TEXT_BYTES, bytes)
            },
            OfficeDocumentOperation::AddPresentationSlide { title } => {
                let bytes = text_bytes(title);
                (bytes > 0 && bytes <= MAX_OPERATION_TEXT_BYTES, bytes)
            },
            OfficeDocumentOperation::AddPresentationText { slide, text } => {
                let bytes = text_bytes(text);
                (bytes > 0 && bytes <= MAX_OPERATION_TEXT_BYTES && *slide != 0, bytes)
            },
            OfficeDocumentOperation::SetSpreadsheetCell { cell, value } => {
                let bytes = text_bytes(value);
                (valid_cell_reference(cell.as_str()) && bytes <= MAX_OPERATION_TEXT_BYTES, bytes)
            },
        };
        let next = total.saturating_add(bytes);
        if !valid || next > MAX_BATCH_TEXT_BYTES {
            return Err(operation_failed());
        }
        total = next;
        i = i + 1;
    }
    Ok(())
}

/// An edit request is refused before the engine starts unless the output keeps the source's
/// format and the batch is acceptable for it.
pub fn check_edit_request(
    source: OfficeDocumentFormat,
    target: OfficeDocumentFormat,
    operations: &[OfficeDocumentOperation],
) -> (r: Result<(), OfficeServiceError>)
    ensures
        source != target ==> (r matches Err(e) && e.spec_kind()
            == OfficeServiceErrorKind::FormatUnsupported),
        source == target ==> match batch_error(source, operations@) {
            None => r is Ok,
            Some(kind) => r matches Err(e) && e.spec_kind() == kind,
        },
{
    if source != target {
        return Err(OfficeServiceError::new(OfficeServiceErrorKind::FormatUnsupported));
    }
    validate_operations(source, operations)
}

// ---- outcomes of engine steps ----

/// The result of an operation run inside a document session, after the session's close step:
/// the operation's own failure wins, then the close failure.
pub fn session_outcome<T>(
    operation: Result<T, OfficeServiceError>,
    close: Result<OfficeOperationResult, OfficeServiceError>,
) -> (r: Result<T, OfficeServiceError>)
    ensures
        match operation {
            Err(e) => r == Err::<T, OfficeServiceError>(e),
            Ok(value) => match close {
                Ok(_) => r == Ok::<T, OfficeServiceError>(value),
                Err(e) => r == Err::<T, OfficeServiceError>(e),
            },
        },
{
    match (operation, close) {
        (Ok(value), Ok(_)) => Ok(value),
        (Ok(_), Err(close_error)) => Err(close_error),
        (Err(operation_error), _) => Err(operation_error),
    }
}

/// Whether an edited copy may replace nothing and be committed to its target: the batch and
/// the close step succeeded, nobody cancelled, and the service still accepts work.
pub fn edit_commit_decision(
    batch: Result<(), OfficeServiceError>,
    close: Result<OfficeOperationResult, OfficeServiceError>,
    cancelled: bool,
    accepting: bool,
) -> (r: Result<(), OfficeServiceError>)
    ensures
        match batch {
            Err(e) => r == Err::<(), OfficeServiceError>(e),
            Ok(_) => match close {
                Err(e) => r == Err::<(), OfficeServiceError>(e),
                Ok(_) => if cancelled {
                    r matches Err(e) && e.spec_kind() == OfficeServiceErrorKind::Cancelled
                } else if !accepting {
                    r matches Err(e) && e.spec_kind() == OfficeServiceErrorKind::OperationFailed
                } else {
                    r is Ok
                },
            },
        },
{
    batch?;
    close?;
    if cancelled {
        return Err(OfficeServiceError::new(OfficeServiceErrorKind::Cancelled));
    }
    if !accepting {
        return Err(operation_failed());
    }
    Ok(())
}

/// Whether a newly created document may be committed to its target: cancellation wins over
/// the close step's failure, which wins over a service that stopped accepting work.
pub fn create_commit_decision(
    close: Result<OfficeOperationResult, OfficeServiceError>,
    cancelled: bool,
    accepting: bool,
) -> (r: Result<(), OfficeServiceError>)
    ensures
        cancelled ==> (r matches Err(e) && e.spec_kind() == OfficeServiceErrorKind::Cancelled),
        !cancelled ==> match close {
            Err(e) => r == Err::<(), OfficeServiceError>(e),
            Ok(_) => if accepting {
                r is Ok
            } else {
                r matches Err(e) && e.spec_kind() == OfficeServiceErrorKind::OperationFailed
            },
        },
{
    if cancelled {
        return Err(OfficeServiceError::new(OfficeServiceErrorKind::Cancelled));
    }
    close?;
    if !accepting {
        return Err(operation_failed());
    }
    Ok(())
}

/// The engine status to report: what the probe found, or unavailable when it failed.
pub fn engine_status_from(probe: Result<OfficeEngineStatus, OfficeRuntimeError>) -> (r:
    OfficeEngineStatus)
    ensures
        match probe {
            Ok(status) => r == status,
            Err(_) => r.state == crate::domain::office::OfficeEngineState::Unavailable
                && r.version is None,
        },
{
    match probe {
        Ok(status) => status,
        Err(_) => OfficeEngineStatus::unavailable(),
    }
}

// ---- previews ----

/// A preview page is numbered from 1 to 10000.
pub fn check_preview_page(page: u32) -> (r: Result<(), OfficeServiceError>)
    ensures
        r is Ok <==> 1 <= page <= MAX_PREVIEW_PAGE,
        r matches Err(e) ==> e.spec_kind() == OfficeServiceErrorKind::OperationFailed,
{
    if page < 1 || page > MAX_PREVIEW_PAGE {
        return Err(operation_failed());
    }
    Ok(())
}

/// A rendered preview must be a regular file of at most 16 MiB.
pub fn check_preview_file(is_file: bool, length: u64) -> (r: Result<(), OfficeServiceError>)
    ensures
        r is Ok <==> is_file && length <= MAX_PREVIEW_BYTES,
        r matches Err(e) ==> e.spec_kind() == OfficeServiceErrorKind::OperationFailed,
{
    if !is_file || length > MAX_PREVIEW_BYTES {
        return Err(operation_failed());
    }
    Ok(())
}

/// The eight bytes every PNG file starts with.
pub open spec fn png_signature() -> Seq<u8> {
    seq![0x89u8, 0x50u8, 0x4Eu8, 0x47u8, 0x0Du8, 0x0Au8, 0x1Au8, 0x0Au8]
}

/// Whether `bytes` start with the PNG signature.
pub fn has_png_signature(bytes: &[u8]) -> (r: bool)
    ensures
        r == (bytes@.len() >= 8 && bytes@.subrange(0, 8) == png_signature()),
{
    if bytes.len() < 8 {
        return false;
    }
    let ok = bytes[0] == 0x89 && bytes[1] == 0x50 && bytes[2] == 0x4E && bytes[3] == 0x47
        && bytes[4] == 0x0D && bytes[5] == 0x0A && bytes[6] == 0x1A && bytes[7] == 0x0A;
    proof {
        if ok {
            assert(bytes@.subrange(0, 8) =~= png_signature());
        } else if bytes@.subrange(0, 8) == png_signature() {
            assert forall|k: int| 0 <= k < 8 implies bytes@[k] == #[trigger] png_signature()[k] by {
                assert(bytes@.subrange(0, 8)[k] == bytes@[k]);
            }
        }
    }
    ok
}

/// What the `base64` crate's standard engine (padded alphabet) encodes `bytes` to.
pub uninterp spec fn spec_base64_standard(bytes: Seq<u8>) -> Seq<char>;

/// Calls `base64::engine::general_purpose::STANDARD.encode` on `bytes`.
#[verifier::external_body]
fn base64_standard(bytes: &[u8]) -> (r: String)
    ensures
        r@ == spec_base64_standard(bytes@),
{
    base64::engine::general_purpose::STANDARD.encode(bytes)
}

/// A PNG preview as a `data:` URL.
pub fn png_preview(bytes: &[u8]) -> (r: OfficePreview)
    ensures
        r.mime_type@ == "image/png"@,
        r.data_url@ == "data:image/png;base64,"@ + spec_base64_standard(bytes@),
{
    let mut data_url = String::from_str("data:image/png;base64,");
    let encoded = base64_standard(bytes);
    data_url.append(encoded.as_str());
    OfficePreview { mime_type: String::from_str("image/png"), data_url }
}

// ---- owned sessions ----

/// The texts of `paths`, as a set.
pub open spec fn path_texts(paths: Seq<String>) -> Set<Seq<char>> {
    Set::new(|p: Seq<char>| exists|i: int| 0 <= i < paths.len() && #[trigger] paths[i]@ == p)
}

/// The document sessions this service opened and must close, and whether it still accepts
/// work. A session the engine reports as already open elsewhere is never taken over.
pub struct OfficeSessions {
    owned: Vec<String>,
    accepting: bool,
}

/// What to do after the engine answered an open request.
pub struct OpenOutcome {
    pub result: Result<OfficeOperationResult, OfficeServiceError>,
    /// The engine opened a session that must be closed again right away.
    pub close_now: bool,
}

impl OfficeSessions {
    /// The paths of the sessions this service owns.
    pub closed spec fn owned(&self) -> Set<Seq<char>> {
        path_texts(self.owned@)
    }

    pub closed spec fn is_accepting(&self) -> bool {
        self.accepting
    }

    pub closed spec fn wf(&self) -> bool {
        forall|i: int, j: int|
            0 <= i < j < self.owned@.len() ==> #[trigger] self.owned@[i]@ != #[trigger] self.owned@[j]@
    }

    pub fn new() -> (r: Self)
        ensures
            r.wf(),
            r.is_accepting(),
            r.owned() == Set::<Seq<char>>::empty(),
    {
        let r = OfficeSessions { owned: Vec::new(), accepting: true };
        assert(path_texts(r.owned@) =~= Set::<Seq<char>>::empty());
        r
    }

    pub fn accepting(&self) -> (r: bool)
        ensures
            r == self.is_accepting(),
    {
        self.accepting
    }

    /// New work is refused once shutdown began.
    pub fn ensure_accepting(&self) -> (r: Result<(), OfficeServiceError>)
        ensures
            r is Ok <==> self.is_accepting(),
            r matches Err(e) ==> e.spec_kind() == OfficeServiceErrorKind::OperationFailed,
    {
        if self.accepting {
            Ok(())
        } else {
            Err(operation_failed())
        }
    }

    fn position(&self, path: &str) -> (r: Option<usize>)
        ensures
            match r {
                Some(i) => i < self.owned@.len() && self.owned@[i as int]@ == path@,
                None => !self.owned().contains(path@),
            },
    {
        let mut i: usize = 0;
        while i < self.owned.len()
            invariant
                0 <= i <= self.owned@.len(),
                forall|k: int| 0 <= k < i ==> (#[trigger] self.owned@[k])@ != path@,
            decreases self.owned@.len() - i,
        {
            if str_eq(self.owned[i].as_str(), path) {
                return Some(i);
            }
            i = i + 1;
        }
        None
    }

    /// Whether the session of `path` is one this service must close.
    pub fn owns(&self, path: &str) -> (r: bool)
        ensures
            r == self.owned().contains(path@),
    {
        self.position(path).is_some()
    }

    /// Records that this service owns the session of `path`.
    pub fn take_ownership(&mut self, path: &str)
        requires
            old(self).wf(),
        ensures
            final(self).wf(),
            final(self).owned() == old(self).owned().insert(path@),
            final(self).is_accepting() == old(self).is_accepting(),
    {
        if self.position(path).is_some() {
            assert(self.owned().insert(path@) =~= self.owned());
            return;
        }
        let ghost before = self.owned@;
        self.owned.push(path.to_owned());
        proof {
            let after = self.owned@;
            assert forall|p: Seq<char>| path_texts(after).contains(p) <==> path_texts(before).insert(
                path@,
            ).contains(p) by {
                if path_texts(after).contains(p) {
                    let k = choose|k: int| 0 <= k < after.len() && #[trigger] after[k]@ == p;
                    if k < before.len() {
                        assert(before[k]@ == p);
                    }
                }
                if path_texts(before).contains(p) {
                    let k = choose|k: int| 0 <= k < before.len() && #[trigger] before[k]@ == p;
                    assert(after[k]@ == p);
                }
                if p == path@ {
                    assert(after[before.len() as int]@ == p);
                }
            }
            assert(path_texts(after) =~= path_texts(before).insert(path@));
        }
    }

    fn release(&mut self, path: &str)
        requires
            old(self).wf(),
        ensures
            final(self).wf(),
            final(self).owned() == old(self).owned().remove(path@),
            final(self).is_accepting() == old(self).is_accepting(),
    {
        match self.position(path) {
            None => {
                assert(self.owned().remove(path@) =~= self.owned());
            },
            Some(i) => {
                let ghost before = self.owned@;
                self.owned.remove(i);
                proof {
                    let after = self.owned@;
                    assert(after == before.remove(i as int));
                    assert forall|a: int, b: int| 0 <= a < b < after.len() implies #[trigger] after[a]@
                        != #[trigger] after[b]@ by {
                        let a2 = if a < i { a } else { a + 1 };
                        let b2 = if b < i { b } else { b + 1 };
                        assert(after[a] == before[a2]);
                        assert(after[b] == before[b2]);
                    }
                    assert forall|p: Seq<char>| path_texts(after).contains(p) <==> path_texts(
                        before,
                    ).remove(path@).contains(p) by {
                        if path_texts(after).contains(p) {
                            let k = choose|k: int| 0 <= k < after.len() && #[trigger] after[k]@ == p;
                            let k2 = if k < i { k } else { k + 1 };
                            assert(after[k] == before[k2]);
                            assert(before[k2]@ != before[i as int]@);
                        }
                        if path_texts(before).remove(path@).contains(p) {
                            let k = choose|k: int| 0 <= k < before.len() && #[trigger] before[k]@ == p;
                            assert(k != i);
                            let k2 = if k < i { k } else { k - 1 };
                            assert(after[k2] == before[k]);
                        }
                    }
                    assert(path_texts(after) =~= path_texts(before).remove(path@));
                }
            },
        }
    }

    /// Whether an open request may start: refused when already cancelled.
    pub fn check_open(cancelled: bool) -> (r: Result<(), OfficeServiceError>)
        ensures
            r is Ok <==> !cancelled,
            r matches Err(e) ==> e.spec_kind() == OfficeServiceErrorKind::Cancelled,
    {
        if cancelled {
            Err(OfficeServiceError::new(OfficeServiceErrorKind::Cancelled))
        } else {
            Ok(())
        }
    }

    /// Takes the engine's answer to opening `path`. When shutdown began meanwhile, the open
    /// fails and a session the engine created for it must be closed at once; otherwise a
    /// created session becomes owned.
    pub fn after_open(
        &mut self,
        path: &str,
        answer: Result<OfficeOperationResult, OfficeRuntimeError>,
    ) -> (r: OpenOutcome)
        requires
            old(self).wf(),
        ensures
            final(self).wf(),
            final(self).is_accepting() == old(self).is_accepting(),
            match answer {
                Err(error) => {
                    &&& r.result matches Err(e) && e.spec_kind() == service_kind_for(error.spec_kind())
                    &&& !r.close_now
                    &&& final(self).owned() == old(self).owned()
                },
                Ok(opened) => if !old(self).is_accepting() {
                    &&& r.result matches Err(e) && e.spec_kind()
                        == OfficeServiceErrorKind::OperationFailed
                    &&& r.close_now == opened.owns_session
                    &&& final(self).owned() == old(self).owned()
                } else {
                    &&& r.result == Ok::<OfficeOperationResult, OfficeServiceError>(opened)
                    &&& !r.close_now
                    &&& final(self).owned() == if opened.owns_session {
                        old(self).owned().insert(path@)
                    } else {
                        old(self).owned()
                    }
                },
            },
    {
        match answer {
            Err(error) => OpenOutcome {
                result: Err(OfficeServiceError::from_runtime(error)),
                close_now: false,
            },
            Ok(opened) => {
                if !self.accepting {
                    return OpenOutcome { result: Err(operation_failed()), close_now: opened.owns_session };
                }
                if opened.owns_session {
                    self.take_ownership(path);
                }
                OpenOutcome { result: Ok(opened), close_now: false }
            },
        }
    }

    /// Whether closing `path` needs the engine; a session this service does not own is left
    /// alone and the close counts as done.
    pub fn close_without_engine(&self, path: &str) -> (r: Option<OfficeOperationResult>)
        ensures
            r is None <==> self.owned().contains(path@),
            r matches Some(done) ==> done == (OfficeOperationResult {
                operation: OfficeLifecycleOperation::Close,
                succeeded: true,
                owns_session: false,
            }),
    {
        if self.owns(path) {
            None
        } else {
            Some(OfficeOperationResult::succeeded(OfficeLifecycleOperation::Close))
        }
    }

    /// Takes the engine's answer to closing the owned session of `path`; a closed session is
    /// no longer owned.
    pub fn after_close(
        &mut self,
        path: &str,
        answer: Result<OfficeOperationResult, OfficeRuntimeError>,
    ) -> (r: Result<OfficeOperationResult, OfficeServiceError>)
        requires
            old(self).wf(),
        ensures
            final(self).wf(),
            final(self).is_accepting() == old(self).is_accepting(),
            match answer {
                Ok(closed) => {
                    &&& r == Ok::<OfficeOperationResult, OfficeServiceError>(closed)
                    &&& final(self).owned() == old(self).owned().remove(path@)
                },
                Err(error) => {
                    &&& r matches Err(e) && e.spec_kind() == service_kind_for(error.spec_kind())
                    &&& final(self).owned() == old(self).owned()
                },
            },
    {
        match answer {
            Ok(closed) => {
                self.release(path);
                Ok(closed)
            },
            Err(error) => Err(OfficeServiceError::from_runtime(error)),
        }
    }

    /// Begins shutdown: stops accepting work and returns the owned session paths to close.
    /// Only the first call does so; later calls return `None`.
    pub fn begin_shutdown(&mut self) -> (r: Option<Vec<String>>)
        requires
            old(self).wf(),
        ensures
            final(self).wf(),
            !final(self).is_accepting(),
            final(self).owned() == old(self).owned(),
            match r {
                Some(paths) => {
                    &&& old(self).is_accepting()
                    &&& path_texts(paths@) == old(self).owned()
                },
                None => !old(self).is_accepting(),
            },
    {
        if !self.accepting {
            return None;
        }
        self.accepting = false;
        let mut paths: Vec<String> = Vec::new();
        let mut i: usize = 0;
        while i < self.owned.len()
            invariant
                0 <= i <= self.owned@.len(),
                paths@.len() == i,
                forall|k: int| 0 <= k < i ==> (#[trigger] paths@[k])@ == self.owned@[k]@,
            decreases self.owned@.len() - i,
        {
            paths.push(self.owned[i].clone());
            i = i + 1;
        }
        proof {
            assert forall|p: Seq<char>| path_texts(paths@).contains(p) <==> path_texts(
                self.owned@,
            ).contains(p) by {
                if path_texts(paths@).contains(p) {
                    let k = choose|k: int| 0 <= k < paths@.len() && #[trigger] paths@[k]@ == p;
                    assert(self.owned@[k]@ == p);
                }
                if path_texts(self.owned@).contains(p) {
                    let k = choose|k: int| 0 <= k < self.owned@.len() && #[trigger] self.owned@[k]@ == p;
                    assert(paths@[k]@ == p);
                }
            }
            assert(path_texts(paths@) =~= path_texts(self.owned@));
        }
        Some(paths)
    }
}

} // verus!
