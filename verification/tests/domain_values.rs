use shendesk::config_service::{ConfigService, APP_CONFIG_KEY};
use shendesk::domain::config::AppConfig;
use shendesk::domain::event::{AppEvent, EventEnvelope, EventKind};
use shendesk::domain::plugin::PluginId;
use shendesk::domain::task::{TaskId, TaskProgress, TaskSnapshot, TaskState};
use shendesk::event_bus::EventBus;
use shendesk::health_service::HealthService;
use shendesk::task_id::task_id_for;

#[test]
fn normalizes_invalid_values() {
    let migrated = AppConfig {
        schema_version: 0,
        theme: "unknown".to_owned(),
        language: " ".to_owned(),
        auto_start: true,
    }
    .migrate();

    assert_eq!(migrated, AppConfig::default());
}

#[test]
fn migration_keeps_supported_values_and_is_idempotent() {
    let config = AppConfig {
        schema_version: 0,
        theme: "light".to_owned(),
        language: "en-US".to_owned(),
        auto_start: false,
    };
    let once = config.migrate();
    assert_eq!(once.schema_version, 1);
    assert_eq!(once.theme, "light");
    assert_eq!(once.language, "en-US");
    assert!(!once.auto_start);
    assert_eq!(once.clone().migrate(), once);
}

#[test]
fn loading_writes_back_only_defaults_and_migrations() {
    let defaults = ConfigService::plan_load(None);
    assert!(defaults.persist);
    assert_eq!(defaults.config, AppConfig::default());

    let current = ConfigService::plan_load(Some(AppConfig::default()));
    assert!(!current.persist);

    let legacy = ConfigService::plan_load(Some(AppConfig {
        schema_version: 0,
        theme: "dark".to_owned(),
        language: "zh-CN".to_owned(),
        auto_start: true,
    }));
    assert!(legacy.persist);
    assert_eq!(legacy.config.schema_version, 1);
    assert_eq!(APP_CONFIG_KEY, "app.settings");
    assert_eq!(
        ConfigService::normalize_for_save(&AppConfig {
            schema_version: 3,
            theme: "neon".to_owned(),
            language: "fr".to_owned(),
            auto_start: false,
        })
        .theme,
        "dark"
    );
}

#[test]
fn event_kind_matches_each_wire_event() {
    let task = TaskSnapshot::pending(TaskId::new("task-1"), "index".to_owned(), 10);

    assert_eq!(AppEvent::ApplicationReady.kind(), EventKind::ApplicationReady);
    assert_eq!(AppEvent::TaskCreated { task: task.clone() }.kind(), EventKind::TaskCreated);
    assert_eq!(AppEvent::TaskFinished { task }.kind(), EventKind::TaskFinished);
    assert_eq!(
        AppEvent::PluginRemoved { plugin_id: PluginId::new("com.shencom.hello") }.kind(),
        EventKind::PluginRemoved
    );
}

#[test]
fn envelopes_carry_their_sequence_and_time() {
    let envelope = EventEnvelope::new(7, 123, AppEvent::UpdateAvailable { version: "2.0.0".to_owned() });
    assert_eq!(envelope.sequence, 7);
    assert_eq!(envelope.published_at_unix_ms, 123);
    assert_eq!(envelope.event.kind(), EventKind::UpdateAvailable);
}

#[test]
fn progress_is_clamped_and_calculated_without_overflow() {
    let mut progress = TaskProgress::new(u64::MAX);

    progress.update(u64::MAX / 2);
    assert_eq!(progress.percentage, 49);

    progress.update(u64::MAX);
    assert_eq!(progress.completed, u64::MAX);
    assert_eq!(progress.percentage, 100);
}

#[test]
fn progress_never_exceeds_total() {
    let mut progress = TaskProgress::new(4);

    progress.update(9);

    assert_eq!(progress.completed, 4);
    assert_eq!(progress.percentage, 100);
}

#[test]
fn completing_empty_work_reports_zero_percent() {
    let mut progress = TaskProgress::new(0);
    progress.complete();
    assert_eq!(progress.percentage, 0);
    let mut progress = TaskProgress::new(3);
    progress.complete();
    assert_eq!((progress.completed, progress.percentage), (3, 100));
    assert!(TaskState::Cancelled.is_terminal());
    assert!(!TaskState::Running.is_terminal());
}

#[test]
fn task_ids_are_zero_padded_sequence_numbers() {
    assert_eq!(task_id_for(1).0, "task-0000000000000001");
    assert_eq!(task_id_for(12_345).0, "task-0000000000012345");
}

#[test]
fn bus_delivers_in_order_and_filters_by_kind() {
    let mut bus = EventBus::new(2);
    let mut everything = bus.subscribe();
    let mut updates = bus.subscribe_to(vec![EventKind::UpdateAvailable]);
    assert_eq!(bus.publish(AppEvent::ApplicationReady), 1);
    assert_eq!(bus.publish(AppEvent::UpdateAvailable { version: "1.1.0".to_owned() }), 2);
    assert_eq!(bus.try_recv(&mut everything).expect("first").sequence, 1);
    assert_eq!(bus.try_recv(&mut everything).expect("second").sequence, 2);
    assert!(bus.try_recv(&mut everything).is_none());
    assert_eq!(bus.try_recv(&mut updates).expect("update").event.kind(), EventKind::UpdateAvailable);
    assert!(bus.try_recv(&mut updates).is_none());
    bus.publish(AppEvent::ApplicationExiting);
    assert_eq!(bus.retained_events().len(), 2);
}

#[test]
fn health_check_reports_ready() {
    let status = HealthService::check(42);
    assert_eq!(status.status, "ready");
    assert_eq!(status.app_name, "ShenDesk");
    assert_eq!(status.uptime_seconds, 42);
}
