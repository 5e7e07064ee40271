//! Domain events exchanged between modules, and their envelopes.
use vstd::prelude::*;

use super::file::FileChange;
use super::plugin::{PluginExecution, PluginId, PluginSnapshot, PluginSnapshotView};
use super::task::TaskSnapshot;

verus! {

/// Stable event categories used by subscribers to select the messages they need.
#[derive(Debug, Clone, Copy, PartialEq, Eq, PartialOrd, Ord, Hash, Structural)]
pub enum EventKind {
    ApplicationReady,
    ApplicationExiting,
    TaskCreated,
    TaskStarted,
    TaskProgressed,
    TaskFinished,
    FileChanged,
    PluginInstalled,
    PluginEnabled,
    PluginDisabled,
    PluginExecuted,
    PluginRemoved,
    UserLoggedIn,
    UserLoggedOut,
    UpdateAvailable,
}

/// Domain events. They carry domain data only, independent of any transport.
#[derive(Debug, PartialEq, Eq)]
pub enum AppEvent {
    ApplicationReady,
    ApplicationExiting,
    TaskCreated { task: TaskSnapshot },
    TaskStarted { task: TaskSnapshot },
    TaskProgressed { task: TaskSnapshot },
    TaskFinished { task: TaskSnapshot },
    FileChanged { change: FileChange },
    PluginInstalled { plugin: PluginSnapshot },
    PluginEnabled { plugin: PluginSnapshot },
    PluginDisabled { plugin: PluginSnapshot },
    PluginExecuted { execution: PluginExecution },
    PluginRemoved { plugin_id: PluginId },
    UserLoggedIn { user_id: String },
    UserLoggedOut { user_id: String },
    UpdateAvailable { version: String },
}

/// An event as a value, with plugin snapshots taken by their views.
pub enum AppEventView {
    ApplicationReady,
    ApplicationExiting,
    TaskCreated { task: TaskSnapshot },
    TaskStarted { task: TaskSnapshot },
    TaskProgressed { task: TaskSnapshot },
    TaskFinished { task: TaskSnapshot },
    FileChanged { change: FileChange },
    PluginInstalled { plugin: PluginSnapshotView },
    PluginEnabled { plugin: PluginSnapshotView },
    PluginDisabled { plugin: PluginSnapshotView },
    PluginExecuted { execution: PluginExecution },
    PluginRemoved { plugin_id: PluginId },
    UserLoggedIn { user_id: String },
    UserLoggedOut { user_id: String },
    UpdateAvailable { version: String },
}

impl View for AppEvent {
    type V = AppEventView;

    open spec fn view(&self) -> AppEventView {
        match self {
            AppEvent::ApplicationReady => AppEventView::ApplicationReady,
            AppEvent::ApplicationExiting => AppEventView::ApplicationExiting,
            AppEvent::TaskCreated { task } => AppEventView::TaskCreated { task: *task },
            AppEvent::TaskStarted { task } => AppEventView::TaskStarted { task: *task },
            AppEvent::TaskProgressed { task } => AppEventView::TaskProgressed { task: *task },
            AppEvent::TaskFinished { task } => AppEventView::TaskFinished { task: *task },
            AppEvent::FileChanged { change } => AppEventView::FileChanged { change: *change },
            AppEvent::PluginInstalled { plugin } => AppEventView::PluginInstalled { plugin: plugin@ },
            AppEvent::PluginEnabled { plugin } => AppEventView::PluginEnabled { plugin: plugin@ },
            AppEvent::PluginDisabled { plugin } => AppEventView::PluginDisabled { plugin: plugin@ },
            AppEvent::PluginExecuted { execution } => AppEventView::PluginExecuted {
                execution: *execution,
            },
            AppEvent::PluginRemoved { plugin_id } => AppEventView::PluginRemoved {
                plugin_id: *plugin_id,
            },
            AppEvent::UserLoggedIn { user_id } => AppEventView::UserLoggedIn { user_id: *user_id },
            AppEvent::UserLoggedOut { user_id } => AppEventView::UserLoggedOut {
                user_id: *user_id,
            },
            AppEvent::UpdateAvailable { version } => AppEventView::UpdateAvailable {
                version: *version,
            },
        }
    }
}

/// The category of an event value.
pub open spec fn event_kind(event: AppEventView) -> EventKind {
    match event {
        AppEventView::ApplicationReady => EventKind::ApplicationReady,
        AppEventView::ApplicationExiting => EventKind::ApplicationExiting,
        AppEventView::TaskCreated { .. } => EventKind::TaskCreated,
        AppEventView::TaskStarted { .. } => EventKind::TaskStarted,
        AppEventView::TaskProgressed { .. } => EventKind::TaskProgressed,
        AppEventView::TaskFinished { .. } => EventKind::TaskFinished,
        AppEventView::FileChanged { .. } => EventKind::FileChanged,
        AppEventView::PluginInstalled { .. } => EventKind::PluginInstalled,
        AppEventView::PluginEnabled { .. } => EventKind::PluginEnabled,
        AppEventView::PluginDisabled { .. } => EventKind::PluginDisabled,
        AppEventView::PluginExecuted { .. } => EventKind::PluginExecuted,
        AppEventView::PluginRemoved { .. } => EventKind::PluginRemoved,
        AppEventView::UserLoggedIn { .. } => EventKind::UserLoggedIn,
        AppEventView::UserLoggedOut { .. } => EventKind::UserLoggedOut,
        AppEventView::UpdateAvailable { .. } => EventKind::UpdateAvailable,
    }
}

impl AppEvent {
    pub fn kind(&self) -> (r: EventKind)
        ensures
            r == event_kind(self@),
    {
        match self {
            AppEvent::ApplicationReady => EventKind::ApplicationReady,
            AppEvent::ApplicationExiting => EventKind::ApplicationExiting,
            AppEvent::TaskCreated { .. } => EventKind::TaskCreated,
            AppEvent::TaskStarted { .. } => EventKind::TaskStarted,
            AppEvent::TaskProgressed { .. } => EventKind::TaskProgressed,
            AppEvent::TaskFinished { .. } => EventKind::TaskFinished,
            AppEvent::FileChanged { .. } => EventKind::FileChanged,
            AppEvent::PluginInstalled { .. } => EventKind::PluginInstalled,
            AppEvent::PluginEnabled { .. } => EventKind::PluginEnabled,
            AppEvent::PluginDisabled { .. } => EventKind::PluginDisabled,
            AppEvent::PluginExecuted { .. } => EventKind::PluginExecuted,
            AppEvent::PluginRemoved { .. } => EventKind::PluginRemoved,
            AppEvent::UserLoggedIn { .. } => EventKind::UserLoggedIn,
            AppEvent::UserLoggedOut { .. } => EventKind::UserLoggedOut,
            AppEvent::UpdateAvailable { .. } => EventKind::UpdateAvailable,
        }
    }
}

impl Clone for AppEvent {
    fn clone(&self) -> (r: Self)
        ensures
            r@ == self@,
    {
        match self {
            AppEvent::ApplicationReady => AppEvent::ApplicationReady,
            AppEvent::ApplicationExiting => AppEvent::ApplicationExiting,
            AppEvent::TaskCreated { task } => AppEvent::TaskCreated { task: task.clone() },
            AppEvent::TaskStarted { task } => AppEvent::TaskStarted { task: task.clone() },
            AppEvent::TaskProgressed { task } => AppEvent::TaskProgressed { task: task.clone() },
            AppEvent::TaskFinished { task } => AppEvent::TaskFinished { task: task.clone() },
            AppEvent::FileChanged { change } => AppEvent::FileChanged { change: change.clone() },
            AppEvent::PluginInstalled { plugin } => AppEvent::PluginInstalled {
                plugin: plugin.clone(),
            },
            AppEvent::PluginEnabled { plugin } => AppEvent::PluginEnabled { plugin: plugin.clone() },
            AppEvent::PluginDisabled { plugin } => AppEvent::PluginDisabled {
                plugin: plugin.clone(),
            },
            AppEvent::PluginExecuted { execution } => AppEvent::PluginExecuted {
                execution: execution.clone(),
            },
            AppEvent::PluginRemoved { plugin_id } => AppEvent::PluginRemoved {
                plugin_id: plugin_id.clone(),
            },
            AppEvent::UserLoggedIn { user_id } => AppEvent::UserLoggedIn { user_id: user_id.clone() },
            AppEvent::UserLoggedOut { user_id } => AppEvent::UserLoggedOut {
                user_id: user_id.clone(),
            },
            AppEvent::UpdateAvailable { version } => AppEvent::UpdateAvailable {
                version: version.clone(),
            },
        }
    }
}

/// Metadata assigned once when an event is published.
#[derive(Debug, PartialEq, Eq)]
pub struct EventEnvelope {
    pub sequence: u64,
    pub published_at_unix_ms: u64,
    pub event: AppEvent,
}

pub struct EventEnvelopeView {
    pub sequence: u64,
    pub published_at_unix_ms: u64,
    pub event: AppEventView,
}

impl View for EventEnvelope {
    type V = EventEnvelopeView;

    open spec fn view(&self) -> EventEnvelopeView {
        EventEnvelopeView {
            sequence: self.sequence,
            published_at_unix_ms: self.published_at_unix_ms,
            event: self.event@,
        }
    }
}

impl EventEnvelope {
    pub fn new(sequence: u64, published_at_unix_ms: u64, event: AppEvent) -> (r: Self)
        ensures
            r.sequence == sequence,
            r.published_at_unix_ms == published_at_unix_ms,
            r.event == event,
    {
        Self { sequence, published_at_unix_ms, event }
    }
}

impl Clone for EventEnvelope {
    fn clone(&self) -> (r: Self)
        ensures
            r@ == self@,
    {
        EventEnvelope {
            sequence: self.sequence,
            published_at_unix_ms: self.published_at_unix_ms,
            event: self.event.clone(),
        }
    }
}

} // verus!
