use shendesk::domain::event::EventKind;
use shendesk::domain::task::TaskState;
use shendesk::event_bus::EventBus;
use shendesk::task_service::{TaskManager, TaskManagerError, TaskService};

#[test]
fn executes_queued_tasks_in_fifo_order_with_one_worker() {
    let mut manager = TaskManager::new(8, 1);
    let first = manager.submit("first", 1).expect("first task should be queued");
    let second = manager.submit("second", 1).expect("second task should be queued");

    let mut order = Vec::new();
    while let Some(id) = manager.next_queued() {
        let context = manager.start(&id).expect("queued task should start");
        context.report_progress(&mut manager, 1);
        manager.finish_success(&id);
        order.push(id);
    }

    assert_eq!(order, vec![first.id.clone(), second.id.clone()]);
    assert_eq!(manager.get(&first.id).expect("first").state, TaskState::Success);
    assert_eq!(manager.get(&second.id).expect("second").state, TaskState::Success);
}

#[test]
fn tracks_progress_and_completes_successfully() {
    let mut manager = TaskManager::new(4, 1);
    let created = manager.submit("index files", 4).expect("task should be queued");
    let id = manager.next_queued().expect("task is queued");
    let context = manager.start(&id).expect("task should start");
    for completed in 1..=4 {
        assert!(context.report_progress(&mut manager, completed));
    }
    manager.finish_success(&id);

    let completed = manager.get(&created.id).expect("task should exist");
    assert_eq!(completed.state, TaskState::Success);
    assert_eq!(completed.progress.completed, 4);
    assert_eq!(completed.progress.percentage, 100);
}

#[test]
fn cooperatively_cancels_running_work() {
    let mut manager = TaskManager::new(4, 1);
    let created = manager.submit("cancel me", 500).expect("task should be queued");
    let id = manager.next_queued().expect("task is queued");
    let context = manager.start(&id).expect("task should start");
    assert!(TaskService::progress_step(&mut manager, &context, 1));

    let cancelled = manager.cancel(&created.id).expect("running task should exist");

    assert_eq!(cancelled.state, TaskState::Cancelled);
    assert!(context.is_cancelled(&manager));
    assert!(!TaskService::progress_step(&mut manager, &context, 2));
    manager.finish_success(&id);
    assert_eq!(manager.get(&created.id).expect("task").state, TaskState::Cancelled);
}

#[test]
fn captures_safe_task_failure_message() {
    let mut manager = TaskManager::new(4, 1);
    let created = manager.submit("fail", 1).expect("task should be queued");
    let id = manager.next_queued().expect("task is queued");
    manager.start(&id).expect("task should start");
    manager.finish_failure(&id, "任务处理失败。".to_owned());

    let failed = manager.get(&created.id).expect("task should exist");
    assert_eq!(failed.state, TaskState::Failed);
    assert_eq!(failed.error.as_deref(), Some("任务处理失败。"));
}

#[test]
fn shutdown_cancels_tasks_and_rejects_new_work() {
    let mut manager = TaskManager::new(4, 1);
    let created = manager.submit("long running", 100).expect("task should be queued");
    let id = manager.next_queued().expect("task is queued");
    manager.start(&id).expect("task should start");

    assert_eq!(manager.shutdown(), 1);
    assert_eq!(manager.get(&created.id).expect("task should exist").state, TaskState::Cancelled);
    assert_eq!(manager.submit("rejected", 1), Err(TaskManagerError::QueueUnavailable));
}

#[test]
fn publishes_ordered_task_lifecycle_events() {
    let mut manager = TaskManager::with_event_bus(4, 1, EventBus::new(16));
    let mut subscriber = manager.event_bus().subscribe();
    let created = manager.submit("eventful", 1).expect("task should be queued");
    let id = manager.next_queued().expect("task is queued");
    let context = manager.start(&id).expect("task should start");
    context.report_progress(&mut manager, 1);
    manager.finish_success(&id);

    assert_eq!(manager.get(&created.id).expect("task").state, TaskState::Success);
    let kinds = (0..4)
        .map(|_| manager.event_bus().try_recv(&mut subscriber).expect("task event should arrive").event.kind())
        .collect::<Vec<_>>();
    assert_eq!(
        kinds,
        vec![
            EventKind::TaskCreated,
            EventKind::TaskStarted,
            EventKind::TaskProgressed,
            EventKind::TaskFinished,
        ]
    );
}

#[test]
fn rejects_blank_names_and_empty_work() {
    let mut manager = TaskManager::new(1, 1);
    assert_eq!(manager.submit("  ", 1), Err(TaskManagerError::InvalidName));
    assert_eq!(manager.submit("work", 0), Err(TaskManagerError::InvalidTotal));
    let created = TaskService::create_progress_task(&mut manager, " sync ", 2).expect("queued");
    assert_eq!(created.name, "sync");
    assert_eq!(manager.submit("overflow", 1), Err(TaskManagerError::QueueUnavailable));
    assert_eq!(TaskService::list(&manager).len(), 1);
}

#[test]
fn task_manager_errors_have_fixed_messages() {
    assert_eq!(TaskManagerError::InvalidName.message(), "task name must not be empty");
    assert_eq!(TaskManagerError::InvalidTotal.message(), "task total must be greater than zero");
    assert_eq!(TaskManagerError::QueueUnavailable.message(), "task queue is full or closed");
}
