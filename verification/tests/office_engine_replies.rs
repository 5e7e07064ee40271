use shendesk::domain::office::{OfficeDocumentFormat, OfficeDocumentOperation};
use shendesk::office_engine::{
    batch_commands, check_batch_argument, check_success_data, engine_version_matches,
    exit_failure_kind, find_reported_version, inspect_root, reports_resident_started, validate_batch_envelope, validate_success_envelope, BatchCommand,
    BatchEnvelope, BatchResultEntry, BatchSummary, JsonKind,
};
use shendesk::office_service::OfficeRuntimeErrorKind;

fn valid_envelope() -> BatchEnvelope {
    BatchEnvelope {
        success: Some(true),
        data_is_object: true,
        results: Some(vec![
            BatchResultEntry { index: Some(0), success: Some(true) },
            BatchResultEntry { index: Some(1), success: Some(true) },
        ]),
        summary: Some(BatchSummary {
            total: Some(2),
            executed: Some(2),
            succeeded: Some(2),
            failed: Some(0),
            skipped: Some(0),
        }),
    }
}

#[test]
fn translates_only_whitelisted_batch_operations_in_order() {
    let commands = batch_commands(&[
        OfficeDocumentOperation::AddPresentationSlide { title: "Fixture".to_owned() },
        OfficeDocumentOperation::AddPresentationText { slide: 1, text: "Body".to_owned() },
    ]);

    match &commands[0] {
        BatchCommand::Add { parent, element, props } => {
            assert_eq!(parent, "/");
            assert_eq!(element, "slide");
            assert_eq!(props[0].name, "title");
            assert_eq!(props[0].value, "Fixture");
        },
        other => panic!("unexpected command {other:?}"),
    }
    match &commands[1] {
        BatchCommand::Add { parent, element, props } => {
            assert_eq!(parent, "/slide[1]");
            assert_eq!(element, "shape");
            assert_eq!(props[0].name, "text");
            assert_eq!(props[0].value, "Body");
            assert_eq!(props.len(), 5);
        },
        other => panic!("unexpected command {other:?}"),
    }
    let cell = batch_commands(&[OfficeDocumentOperation::SetSpreadsheetCell {
        cell: "B7".to_owned(),
        value: "42".to_owned(),
    }]);
    match &cell[0] {
        BatchCommand::SetValue { path, props } => {
            assert_eq!(path, "/Sheet1/B7");
            assert_eq!(props[0].value, "42");
        },
        other => panic!("unexpected command {other:?}"),
    }
}

#[test]
fn batch_success_requires_every_ordered_result() {
    assert!(validate_batch_envelope(&valid_envelope(), 2).is_ok());

    let mut malformed = valid_envelope();
    if let Some(results) = malformed.results.as_mut() {
        results[1].index = Some(0);
    }
    assert!(validate_batch_envelope(&malformed, 2).is_err());

    let mut short_summary = valid_envelope();
    short_summary.summary = Some(BatchSummary {
        total: Some(2),
        executed: Some(1),
        succeeded: Some(1),
        failed: Some(0),
        skipped: Some(1),
    });
    assert_eq!(
        validate_batch_envelope(&short_summary, 2).expect_err("skipped work").kind(),
        OfficeRuntimeErrorKind::InvalidJson
    );
    let mut refused = valid_envelope();
    refused.success = Some(false);
    assert_eq!(
        validate_batch_envelope(&refused, 2).expect_err("refused").kind(),
        OfficeRuntimeErrorKind::NonZeroExit
    );
}

#[test]
fn extracts_only_valid_non_null_success_data() {
    assert!(check_success_data(Some(true), JsonKind::Object).is_ok());
    assert!(check_success_data(Some(true), JsonKind::Missing).is_err());
    assert!(check_success_data(Some(true), JsonKind::Null).is_err());
    assert!(check_success_data(Some(true), JsonKind::Text).is_err());
    assert_eq!(
        validate_success_envelope(None).expect_err("no flag").kind(),
        OfficeRuntimeErrorKind::InvalidJson
    );
}

#[test]
fn oversized_escaped_batch_is_rejected_before_spawn() {
    assert!(check_batch_argument(24_000).is_ok());
    assert_eq!(
        check_batch_argument(30_000).expect_err("oversized").kind(),
        OfficeRuntimeErrorKind::OutputLimit
    );
}

#[test]
fn engine_reply_details() {
    assert!(reports_resident_started("{\"message\":\"opened (resident started)\"}"));
    assert!(!reports_resident_started("{\"message\":\"opened\"}"));
    assert_eq!(exit_failure_kind(true), OfficeRuntimeErrorKind::NonZeroExit);
    assert_eq!(exit_failure_kind(false), OfficeRuntimeErrorKind::Crashed);
    assert_eq!(inspect_root(OfficeDocumentFormat::Spreadsheet), "/Sheet1");
}

#[test]
fn reads_the_reported_engine_version() {
    assert_eq!(find_reported_version("officecli 1.0.143\n"), Some("1.0.143".to_owned()));
    assert_eq!(find_reported_version("officecli  vv2.1.0-beta.1 extra"), Some("2.1.0-beta.1".to_owned()));
    assert_eq!(find_reported_version("officecli version unknown"), None);
    assert_eq!(find_reported_version(""), None);
}

#[test]
fn engine_version_must_match_exactly() {
    assert!(engine_version_matches("officecli 1.0.143", "1.0.143"));
    assert!(engine_version_matches("officecli v1.0.143\n", "1.0.143"));
    assert!(!engine_version_matches("officecli 9.9.9", "1.0.143"));
    assert!(!engine_version_matches("officecli 11.0.143", "1.0.143"));
    assert!(!engine_version_matches("officecli", "1.0.143"));
}
