use shendesk::domain::office::{
    OfficeDocumentFormat, OfficeDocumentOperation, OfficeEngineState, OfficeEngineStatus,
    OfficeLifecycleOperation, OfficeOperationResult,
};
use shendesk::ipc_error::IpcErrorCode;
use shendesk::ipc_request::map_office_error;
use shendesk::office_service::{
    check_edit_request, check_preview_file, check_preview_page, create_commit_decision,
    document_format, edit_commit_decision, engine_status_from, extension_for, has_png_signature,
    png_preview, session_outcome, valid_cell_reference, validate_operations, OfficeRuntimeError,
    OfficeRuntimeErrorKind, OfficeServiceError, OfficeServiceErrorKind, OfficeSessions,
    DEFAULT_TIMEOUT_MS, OPEN_TIMEOUT_MS, PROBE_TIMEOUT_MS,
};

const PNG: [u8; 8] = [0x89, 0x50, 0x4E, 0x47, 0x0D, 0x0A, 0x1A, 0x0A];

fn closed() -> OfficeOperationResult {
    OfficeOperationResult::succeeded(OfficeLifecycleOperation::Close)
}

#[test]
fn validates_excel_bounds_before_runtime_execution() {
    assert!(valid_cell_reference("A1"));
    assert!(valid_cell_reference("XFD1048576"));
    for invalid in ["A0", "XFE1", "a1", "A1048577", "A1:B2"] {
        assert!(!valid_cell_reference(invalid));
    }
}

#[test]
fn startup_probe_uses_a_shorter_timeout_than_document_operations() {
    assert!(PROBE_TIMEOUT_MS < DEFAULT_TIMEOUT_MS);
    assert!(PROBE_TIMEOUT_MS < OPEN_TIMEOUT_MS);
}

#[test]
fn recognizes_only_supported_office_formats() {
    assert_eq!(OfficeDocumentFormat::from_extension("DOCX"), Some(OfficeDocumentFormat::Word));
    assert_eq!(
        OfficeDocumentFormat::from_extension("xlsx"),
        Some(OfficeDocumentFormat::Spreadsheet)
    );
    assert_eq!(
        OfficeDocumentFormat::from_extension("pptx"),
        Some(OfficeDocumentFormat::Presentation)
    );
    assert_eq!(OfficeDocumentFormat::from_extension("pdf"), None);
}

#[test]
fn rejects_bad_paths_before_starting_runtime() {
    let error = document_format(Some("pdf")).expect_err("unsupported format should fail");
    assert_eq!(error.kind(), OfficeServiceErrorKind::FormatUnsupported);
    assert_eq!(
        document_format(None).expect_err("no extension").kind(),
        OfficeServiceErrorKind::FormatUnsupported
    );
    assert_eq!(document_format(Some("Docx")).expect("docx"), OfficeDocumentFormat::Word);
}

#[test]
fn recording_runtime_supports_application_tests_without_officecli() {
    let mut sessions = OfficeSessions::new();
    let opened = sessions.after_open("/tmp/fixture.docx", Ok(OfficeOperationResult::opened(true)));
    assert!(!opened.close_now);
    assert!(opened.result.is_ok());
    assert!(sessions.owns("/tmp/fixture.docx"));
    assert!(sessions.close_without_engine("/tmp/fixture.docx").is_none());
    let close = sessions.after_close("/tmp/fixture.docx", Ok(closed()));
    assert!(!sessions.owns("/tmp/fixture.docx"));
    assert_eq!(session_outcome(Ok(42), close).expect("operation should succeed"), 42);
}

#[test]
fn does_not_take_ownership_of_a_reused_session() {
    let mut sessions = OfficeSessions::new();
    let opened = sessions.after_open("/tmp/fixture.docx", Ok(OfficeOperationResult::opened(false)));
    assert!(opened.result.is_ok());
    assert!(!sessions.owns("/tmp/fixture.docx"));
    assert_eq!(sessions.close_without_engine("/tmp/fixture.docx"), Some(closed()));
}

#[test]
fn failure_and_cancellation_still_close_owned_session() {
    for expected_kind in [OfficeServiceErrorKind::OperationFailed, OfficeServiceErrorKind::Cancelled] {
        let mut sessions = OfficeSessions::new();
        sessions.after_open("/tmp/fixture.docx", Ok(OfficeOperationResult::opened(true)));
        assert!(sessions.close_without_engine("/tmp/fixture.docx").is_none());
        let close = sessions.after_close("/tmp/fixture.docx", Ok(closed()));
        let error = session_outcome::<()>(Err(OfficeServiceError::new(expected_kind)), close)
            .expect_err("operation should fail");
        assert_eq!(error.kind(), expected_kind);
        assert!(!sessions.owns("/tmp/fixture.docx"));
    }
}

#[test]
fn failed_batch_never_publishes_its_staged_output() {
    let failure = OfficeServiceError::from(OfficeRuntimeError::new(OfficeRuntimeErrorKind::NonZeroExit));
    let decision = edit_commit_decision(Err(failure), Ok(closed()), false, true);
    assert_eq!(decision.expect_err("failed batch").kind(), OfficeServiceErrorKind::OperationFailed);
    assert!(edit_commit_decision(Ok(()), Ok(closed()), false, true).is_ok());
    assert_eq!(
        edit_commit_decision(Ok(()), Ok(closed()), true, true).expect_err("cancelled").kind(),
        OfficeServiceErrorKind::Cancelled
    );
}

#[test]
fn creation_commits_only_after_a_clean_close() {
    assert!(create_commit_decision(Ok(closed()), false, true).is_ok());
    assert_eq!(
        create_commit_decision(Err(OfficeServiceError::new(OfficeServiceErrorKind::Timeout)), true, true)
            .expect_err("cancellation wins")
            .kind(),
        OfficeServiceErrorKind::Cancelled
    );
    assert_eq!(
        create_commit_decision(Ok(closed()), false, false).expect_err("shut down").kind(),
        OfficeServiceErrorKind::OperationFailed
    );
}

#[test]
fn applies_ordered_operations_to_a_copy_and_preserves_the_original() {
    let operations = vec![
        OfficeDocumentOperation::AddWordParagraph { text: "first".to_owned() },
        OfficeDocumentOperation::AddWordParagraph { text: "second".to_owned() },
    ];
    assert!(check_edit_request(OfficeDocumentFormat::Word, OfficeDocumentFormat::Word, &operations).is_ok());
    assert_eq!(
        check_edit_request(OfficeDocumentFormat::Word, OfficeDocumentFormat::Spreadsheet, &operations)
            .expect_err("format must be kept")
            .kind(),
        OfficeServiceErrorKind::FormatUnsupported
    );
}

#[test]
fn validates_edit_batches() {
    assert_eq!(
        validate_operations(OfficeDocumentFormat::Word, &[]).expect_err("empty").kind(),
        OfficeServiceErrorKind::OperationFailed
    );
    assert_eq!(
        validate_operations(
            OfficeDocumentFormat::Word,
            &[OfficeDocumentOperation::AddPresentationSlide { title: "t".to_owned() }]
        )
        .expect_err("wrong format")
        .kind(),
        OfficeServiceErrorKind::FormatUnsupported
    );
    assert!(validate_operations(
        OfficeDocumentFormat::Presentation,
        &[OfficeDocumentOperation::AddPresentationText { slide: 0, text: "x".to_owned() }]
    )
    .is_err());
    assert!(validate_operations(
        OfficeDocumentFormat::Spreadsheet,
        &[OfficeDocumentOperation::SetSpreadsheetCell { cell: "B2".to_owned(), value: String::new() }]
    )
    .is_ok());
    let long_text = "x".repeat(9 * 1024);
    let too_much = vec![
        OfficeDocumentOperation::AddWordParagraph { text: long_text.clone() },
        OfficeDocumentOperation::AddWordParagraph { text: long_text },
    ];
    assert!(validate_operations(OfficeDocumentFormat::Word, &too_much).is_err());
    let too_many = (0..101)
        .map(|_| OfficeDocumentOperation::AddWordParagraph { text: "p".to_owned() })
        .collect::<Vec<_>>();
    assert!(validate_operations(OfficeDocumentFormat::Word, &too_many).is_err());
}

#[test]
fn returns_structured_inspection_and_cleans_preview_files() {
    assert!(check_preview_page(1).is_ok());
    assert!(check_preview_page(0).is_err());
    assert!(check_preview_page(10_001).is_err());
    assert!(check_preview_file(true, 1024).is_ok());
    assert!(check_preview_file(false, 1).is_err());
    assert!(has_png_signature(&PNG));
    assert!(!has_png_signature(b"GIF89a.."));
    let preview = png_preview(&PNG);
    assert_eq!(preview.mime_type, "image/png");
    assert!(preview.data_url.starts_with("data:image/png;base64,"));
    assert_eq!(preview.data_url, "data:image/png;base64,iVBORw0KGgo=");
}

#[test]
fn shutdown_stops_new_work_and_hands_back_owned_sessions() {
    let mut sessions = OfficeSessions::new();
    sessions.after_open("/tmp/a.docx", Ok(OfficeOperationResult::opened(true)));
    let paths = sessions.begin_shutdown().expect("first shutdown");
    assert_eq!(paths, vec!["/tmp/a.docx".to_owned()]);
    assert!(sessions.begin_shutdown().is_none());
    assert!(sessions.ensure_accepting().is_err());
    let late = sessions.after_open("/tmp/b.docx", Ok(OfficeOperationResult::opened(true)));
    assert!(late.close_now);
    assert_eq!(late.result.expect_err("late open").kind(), OfficeServiceErrorKind::OperationFailed);
}

#[test]
fn maps_engine_failures_to_stable_service_errors() {
    let cases = [
        (OfficeRuntimeErrorKind::MissingSidecar, OfficeServiceErrorKind::EngineUnavailable),
        (OfficeRuntimeErrorKind::VersionMismatch, OfficeServiceErrorKind::EngineUnavailable),
        (OfficeRuntimeErrorKind::Timeout, OfficeServiceErrorKind::Timeout),
        (OfficeRuntimeErrorKind::Cancelled, OfficeServiceErrorKind::Cancelled),
        (OfficeRuntimeErrorKind::InvalidJson, OfficeServiceErrorKind::OperationFailed),
    ];
    for (runtime, service) in cases {
        assert_eq!(OfficeServiceError::from(OfficeRuntimeError::new(runtime)).kind(), service);
    }
    assert_eq!(extension_for(OfficeDocumentFormat::Spreadsheet), "xlsx");
    let status = engine_status_from(Err(OfficeRuntimeError::new(OfficeRuntimeErrorKind::Spawn)));
    assert_eq!(status.state, OfficeEngineState::Unavailable);
    assert_eq!(
        engine_status_from(Ok(OfficeEngineStatus::ready("1.0.143"))).version.as_deref(),
        Some("1.0.143")
    );
}

#[test]
fn maps_all_office_errors_without_internal_details() {
    let cases = [
        (OfficeServiceErrorKind::EngineUnavailable, IpcErrorCode::OfficeEngineUnavailable),
        (OfficeServiceErrorKind::FormatUnsupported, IpcErrorCode::OfficeFormatUnsupported),
        (OfficeServiceErrorKind::DocumentNotFound, IpcErrorCode::OfficeDocumentNotFound),
        (OfficeServiceErrorKind::DocumentLocked, IpcErrorCode::OfficeDocumentLocked),
        (OfficeServiceErrorKind::OutputConflict, IpcErrorCode::OfficeOutputConflict),
        (OfficeServiceErrorKind::Timeout, IpcErrorCode::OfficeOperationTimeout),
        (OfficeServiceErrorKind::Cancelled, IpcErrorCode::OfficeOperationCancelled),
        (OfficeServiceErrorKind::OperationFailed, IpcErrorCode::OfficeOperationFailed),
    ];
    for (kind, expected) in cases {
        let mapped = map_office_error("ipc.office.test", OfficeServiceError::new(kind));
        assert_eq!(mapped.code, expected);
        assert!(!mapped.message.contains("/Users/example"));
        assert!(!mapped.message.contains("stderr"));
    }
}
