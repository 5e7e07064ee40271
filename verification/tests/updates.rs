use shendesk::domain::event::EventKind;
use shendesk::domain::update::{UpdateInfo, UpdateProgress};
use shendesk::event_bus::EventBus;
use shendesk::ipc_error::IpcErrorCode;
use shendesk::ipc_request::map_update_error;
use shendesk::update_service::{
    configured_public_key, DownloadProgress, UpdateService, UpdateServiceError,
    UpdateServiceErrorKind, UPDATE_ENDPOINT,
};

fn available_update() -> UpdateInfo {
    UpdateInfo {
        current_version: "0.1.0".to_owned(),
        version: "0.2.0".to_owned(),
        notes: None,
        published_at_unix_seconds: Some(1),
        target: "windows-x86_64".to_owned(),
    }
}

#[test]
fn publishes_update_available_after_a_successful_check() {
    let mut service = UpdateService::new(EventBus::new(8));
    let mut subscriber = service.event_bus().subscribe_to(vec![EventKind::UpdateAvailable]);

    service.begin_operation().expect("no other operation runs");
    let update = service
        .finish_check(Ok(Some(available_update())))
        .expect("check should work")
        .expect("update should exist");
    let event = service.event_bus().try_recv(&mut subscriber).expect("update event should arrive");

    assert_eq!(update.version, "0.2.0");
    assert_eq!(event.event.kind(), EventKind::UpdateAvailable);
}

#[test]
fn forwards_ordered_install_progress() {
    let mut progress = DownloadProgress::new();
    let mut events = progress.on_chunk(10, Some(10));
    events.extend(progress.on_finish());

    assert!(matches!(&events[0], UpdateProgress::Started { .. }));
    assert!(matches!(&events[1], UpdateProgress::Progress { downloaded: 10, .. }));
    assert!(matches!(&events[2], UpdateProgress::Finished { downloaded: 10 }));
    assert_eq!(events.len(), 3);
}

#[test]
fn finishing_without_chunks_still_starts_first() {
    let mut progress = DownloadProgress::new();
    assert_eq!(
        progress.on_finish(),
        vec![
            UpdateProgress::Started { content_length: None },
            UpdateProgress::Finished { downloaded: 0 },
        ]
    );
    let later = progress.on_chunk(5, None);
    assert_eq!(
        later,
        vec![UpdateProgress::Progress { chunk_length: 5, downloaded: 5, content_length: None }]
    );
}

#[test]
fn only_one_update_operation_runs_at_a_time() {
    let mut service = UpdateService::new(EventBus::default());
    service.begin_operation().expect("first operation starts");
    assert_eq!(
        service.begin_operation().expect_err("second is refused").kind(),
        UpdateServiceErrorKind::Busy
    );
    assert!(service.finish_install(Ok(())).is_ok());
    assert!(!service.busy());
    assert!(service.begin_operation().is_ok());
    assert!(service.finish_check(Ok(None)).expect("check works").is_none());
}

#[test]
fn production_update_endpoint_is_fixed_and_uses_https() {
    assert_eq!(
        UPDATE_ENDPOINT,
        "https://github.com/zihe-xu/ShencomDesk/releases/latest/download/latest.json"
    );
    assert!(UPDATE_ENDPOINT.starts_with("https://"));
    assert!(!UPDATE_ENDPOINT.contains("{{"));
}

#[test]
fn ordinary_builds_may_omit_the_release_public_key() {
    for embedded in [None, Some("release-key")] {
        match configured_public_key(embedded) {
            Ok(public_key) => assert!(!public_key.trim().is_empty()),
            Err(error) => assert_eq!(error.kind(), UpdateServiceErrorKind::NotConfigured),
        }
    }
    assert!(configured_public_key(Some("  ")).is_err());
}

#[test]
fn update_errors_are_redacted_and_operation_specific() {
    let internal = UpdateServiceError::new(
        UpdateServiceErrorKind::CheckFailed,
        "GET https://private.example/latest.json failed with secret header",
    );
    let mapped = map_update_error("ipc.update.check", internal);

    assert_eq!(mapped.code, IpcErrorCode::UpdateCheckFailed);
    assert!(!mapped.message.contains("private.example"));
    assert!(!mapped.message.contains("secret"));
}

#[test]
fn maps_update_errors_without_exposing_endpoints_or_signatures() {
    let internal = UpdateServiceError::check_failed(
        "GET https://private.example/latest.json rejected signature SECRET",
    );
    let payload = map_update_error("ipc.update.check", internal);

    assert_eq!(payload.code, IpcErrorCode::UpdateCheckFailed);
    assert!(!payload.message.contains("private.example"));
    assert!(!payload.message.contains("SECRET"));
    assert_eq!(payload.message, "检查更新失败，请稍后重试。");
}
