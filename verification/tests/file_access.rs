use std::sync::Mutex;

use shendesk::domain::event::AppEvent;
use shendesk::domain::file::{
    FileChange, FileChangeKind, FileEntry, FileIndex, FileReadResult, FileWatch, FileWatchId,
};
use shendesk::event_bus::EventBus;
use shendesk::file_service::{
    resolve_index_limits, resolve_read_limit, validate_path, validate_watch_id, watch_stop_outcome,
    FileRepository, FileService, FileServiceError,
    FileServiceErrorKind, MAX_INDEX_DEPTH, MAX_INDEX_ENTRIES, MAX_READ_BYTES,
};
use shendesk::ipc_error::IpcErrorCode;
use shendesk::ipc_request::map_file_error;

#[derive(Default)]
struct RecordingRepository {
    reads: Mutex<Vec<(String, u64)>>,
}

impl FileRepository for RecordingRepository {
    fn read_text(&self, path: &str, max_bytes: u64) -> Result<FileReadResult, FileServiceError> {
        self.reads.lock().expect("reads lock").push((path.to_owned(), max_bytes));
        Ok(FileReadResult {
            entry: FileEntry {
                path: path.to_owned(),
                name: "example.txt".to_owned(),
                extension: Some("txt".to_owned()),
                size_bytes: 5,
                modified_at_unix_ms: Some(1),
                is_directory: false,
            },
            content: "hello".to_owned(),
            from_cache: false,
        })
    }

    fn index_directory(
        &self,
        root: &str,
        _max_entries: usize,
        _max_depth: usize,
    ) -> Result<FileIndex, FileServiceError> {
        Ok(FileIndex { root: root.to_owned(), entries: Vec::new(), scanned_at_unix_ms: 1, truncated: false })
    }

    fn start_watch(&self, path: &str, recursive: bool) -> Result<FileWatch, FileServiceError> {
        Ok(FileWatch { id: FileWatchId::new("watch-1"), root: path.to_owned(), recursive })
    }

    fn stop_watch(&self, watch_id: &FileWatchId) -> Result<bool, FileServiceError> {
        Ok(watch_id.0 == "watch-1")
    }

    fn clear_cache(&self) {}

    fn shutdown(&self) -> usize {
        0
    }
}

#[test]
fn validates_absolute_paths_and_operation_limits() {
    let service = FileService::new(RecordingRepository::default(), EventBus::default());

    assert_eq!(
        service
            .read_text_file("relative.txt", None)
            .expect_err("relative paths should be rejected")
            .kind(),
        FileServiceErrorKind::InvalidInput
    );
    assert_eq!(
        service
            .read_text_file("/tmp/example.txt", Some(MAX_READ_BYTES + 1))
            .expect_err("oversized read limit should be rejected")
            .kind(),
        FileServiceErrorKind::InvalidInput
    );
    assert_eq!(
        service
            .index_directory("/tmp", Some(MAX_INDEX_ENTRIES + 1), None)
            .expect_err("oversized index should be rejected")
            .kind(),
        FileServiceErrorKind::InvalidInput
    );
}

#[test]
fn publishes_file_changes_from_repository_callbacks() {
    let mut service = FileService::new(RecordingRepository::default(), EventBus::default());
    let mut subscriber = service.event_bus().subscribe();

    service.start_watch("/tmp", true).expect("watch should start");
    service.publish_change(FileChange {
        watch_id: FileWatchId::new("watch-1"),
        path: "/tmp/example.txt".to_owned(),
        kind: FileChangeKind::Modified,
    });

    let envelope = service
        .event_bus()
        .try_recv(&mut subscriber)
        .expect("file event should arrive");
    assert!(matches!(envelope.event, AppEvent::FileChanged { .. }));
}

#[test]
fn returns_stable_not_found_error_for_unknown_watch() {
    let service = FileService::new(RecordingRepository::default(), EventBus::default());

    assert_eq!(
        service.stop_watch("unknown").expect_err("unknown watch should fail").kind(),
        FileServiceErrorKind::WatchNotFound
    );
    assert_eq!(service.stop_watch(" watch-1 ").expect("known watch stops").0, "watch-1");
}

#[test]
fn applies_default_limits_and_trims_paths() {
    let service = FileService::new(RecordingRepository::default(), EventBus::default());
    let read = service.read_text_file("  /tmp/example.txt ", None).expect("read should work");
    assert_eq!(read.entry.path, "/tmp/example.txt");
    assert_eq!(service.repository().reads.lock().expect("reads lock")[0].1, 4 * 1024 * 1024);
    assert!(service.index_directory("/tmp", None, Some(MAX_INDEX_DEPTH + 1)).is_err());
    assert!(service.index_directory("/tmp", Some(0), None).is_err());
    assert!(service.read_text_file("/tmp/example.txt", Some(0)).is_err());
    assert!(validate_path("   ").is_err());
    assert!(validate_watch_id(&"w".repeat(129)).is_err());
}

#[test]
fn maps_file_errors_to_stable_redacted_payloads() {
    let internal = FileServiceError::new(
        FileServiceErrorKind::PermissionDenied,
        "permission denied: /Users/example/private.txt",
    );
    let payload = map_file_error("ipc.file.read", internal);

    assert_eq!(payload.code, IpcErrorCode::FileAccessDenied);
    assert!(!payload.message.contains("/Users/example"));
    assert_eq!(payload.message, "没有权限访问指定文件或目录。");
}

#[test]
fn limits_and_watch_outcomes_are_decided_before_and_after_the_repository() {
    assert_eq!(resolve_read_limit(None), Some(4 * 1024 * 1024));
    assert_eq!(resolve_read_limit(Some(0)), None);
    assert_eq!(resolve_read_limit(Some(MAX_READ_BYTES + 1)), None);
    assert_eq!(resolve_read_limit(Some(10)), Some(10));
    assert_eq!(resolve_index_limits(None, None), Some((5000, 16)));
    assert_eq!(resolve_index_limits(Some(MAX_INDEX_ENTRIES + 1), None), None);
    assert_eq!(resolve_index_limits(Some(0), None), None);
    assert_eq!(resolve_index_limits(None, Some(MAX_INDEX_DEPTH + 1)), None);
    assert_eq!(
        watch_stop_outcome(FileWatchId::new("watch-1"), true).expect("found"),
        FileWatchId::new("watch-1")
    );
    assert_eq!(
        watch_stop_outcome(FileWatchId::new("watch-1"), false).expect_err("missing").kind(),
        FileServiceErrorKind::WatchNotFound
    );
}
