//! Application updates: one check or installation at a time, `UpdateAvailable` after a check
//! that found one, and the ordered progress of a download.
//!
//! The updater itself works over the network; the caller starts an operation with
//! `begin_operation`, performs it, and hands the outcome to `finish_check` or
//! `finish_install`.
use vstd::prelude::*;

use crate::domain::event::{AppEvent, AppEventView, EventEnvelopeView};
use crate::domain::update::{UpdateInfo, UpdateProgress};
use crate::event_bus::EventBus;
use crate::text::{is_blank, is_blank_seq};

verus! {

/// The fixed release manifest the updater reads.
pub const UPDATE_ENDPOINT: &'static str =
    "https://github.com/zihe-xu/ShencomDesk/releases/latest/download/latest.json";

/// Time limit of an update download, in seconds.
pub const UPDATE_TIMEOUT_SECS: u64 = 600;

#[derive(Debug, Clone, Copy, PartialEq, Eq, Structural)]
pub enum UpdateServiceErrorKind {
    NotConfigured,
    Busy,
    NoPendingUpdate,
    CheckFailed,
    InstallFailed,
    Internal,
}

#[derive(Debug)]
pub struct UpdateServiceError {
    kind: UpdateServiceErrorKind,
    message: String,
}

impl UpdateServiceError {
    pub closed spec fn spec_kind(&self) -> UpdateServiceErrorKind {
        self.kind
    }

    pub closed spec fn spec_message(&self) -> Seq<char> {
        self.message@
    }

    pub fn new(kind: UpdateServiceErrorKind, message: &str) -> (r: Self)
        ensures
            r.spec_kind() == kind,
            r.spec_message() == message@,
    {
        UpdateServiceError { kind, message: message.to_owned() }
    }

    pub fn not_configured(message: &str) -> (r: Self)
        ensures
            r.spec_kind() == UpdateServiceErrorKind::NotConfigured,
            r.spec_message() == message@,
    {
        Self::new(UpdateServiceErrorKind::NotConfigured, message)
    }

    pub fn check_failed(message: &str) -> (r: Self)
        ensures
            r.spec_kind() == UpdateServiceErrorKind::CheckFailed,
            r.spec_message() == message@,
    {
        Self::new(UpdateServiceErrorKind::CheckFailed, message)
    }

    pub fn install_failed(message: &str) -> (r: Self)
        ensures
            r.spec_kind() == UpdateServiceErrorKind::InstallFailed,
            r.spec_message() == message@,
    {
        Self::new(UpdateServiceErrorKind::InstallFailed, message)
    }

    pub fn kind(&self) -> (r: UpdateServiceErrorKind)
        ensures
            r == self.spec_kind(),
    {
        self.kind
    }

    pub fn message(&self) -> (r: &str)
        ensures
            r@ == self.spec_message(),
    {
        self.message.as_str()
    }
}

pub fn busy_error() -> (r: UpdateServiceError)
    ensures
        r.spec_kind() == UpdateServiceErrorKind::Busy,
{
    UpdateServiceError::new(
        UpdateServiceErrorKind::Busy,
        "another update operation is already running",
    )
}

/// The updater's signing key, which a build may leave out: a missing or blank key means
/// updates are not configured.
pub fn configured_public_key(embedded: Option<&str>) -> (r: Result<&str, UpdateServiceError>)
    ensures
        match embedded {
            Some(key) => if is_blank_seq(key@) {
                r matches Err(e) && e.spec_kind() == UpdateServiceErrorKind::NotConfigured
            } else {
                r matches Ok(value) && value@ == key@
            },
            None => r matches Err(e) && e.spec_kind() == UpdateServiceErrorKind::NotConfigured,
        },
{
    match embedded {
        Some(key) => if is_blank(key) {
            Err(UpdateServiceError::not_configured("the updater public key is not embedded in this build"))
        } else {
            Ok(key)
        },
        None => Err(UpdateServiceError::not_configured("the updater public key is not embedded in this build")),
    }
}

pub struct UpdateService {
    busy: bool,
    event_bus: EventBus,
}

impl UpdateService {
    pub closed spec fn is_busy(&self) -> bool {
        self.busy
    }

    pub closed spec fn spec_event_bus(&self) -> EventBus {
        self.event_bus
    }

    /// Every event this service published, in order.
    pub open spec fn published(&self) -> Seq<AppEventView> {
        self.spec_event_bus().published().map_values(|envelope: EventEnvelopeView| envelope.event)
    }

    pub open spec fn wf(&self) -> bool {
        self.spec_event_bus().wf()
    }

    pub fn new(event_bus: EventBus) -> (r: Self)
        requires
            event_bus.wf(),
        ensures
            r.wf(),
            !r.is_busy(),
            r.spec_event_bus() == event_bus,
    {
        UpdateService { busy: false, event_bus }
    }

    pub fn event_bus(&self) -> (r: &EventBus)
        ensures
            *r == self.spec_event_bus(),
    {
        &self.event_bus
    }

    pub fn busy(&self) -> (r: bool)
        ensures
            r == self.is_busy(),
    {
        self.busy
    }

    /// Starts a check or an installation; refused while another one runs.
    pub fn begin_operation(&mut self) -> (r: Result<(), UpdateServiceError>)
        requires
            old(self).wf(),
        ensures
            final(self).wf(),
            final(self).published() == old(self).published(),
            r is Ok <==> !old(self).is_busy(),
            r matches Err(e) ==> e.spec_kind() == UpdateServiceErrorKind::Busy,
            final(self).is_busy(),
    {
        if self.busy {
            return Err(busy_error());
        }
        self.busy = true;
        Ok(())
    }

    /// Ends a check with its outcome; a found update is announced with `UpdateAvailable`.
    pub fn finish_check(&mut self, outcome: Result<Option<UpdateInfo>, UpdateServiceError>) -> (r:
        Result<Option<UpdateInfo>, UpdateServiceError>)
        requires
            old(self).wf(),
        ensures
            final(self).wf(),
            !final(self).is_busy(),
            r == outcome,
            match outcome {
                Ok(Some(update)) => final(self).published() == old(self).published().push(
                    AppEventView::UpdateAvailable { version: update.version },
                ),
                _ => final(self).published() == old(self).published(),
            },
    {
        self.busy = false;
        match &outcome {
            Ok(Some(update)) => {
                let ghost before = self.event_bus.published();
                self.event_bus.publish(AppEvent::UpdateAvailable { version: update.version.clone() });
                proof {
                    let after = self.event_bus.published();
                    let f = |envelope: EventEnvelopeView| envelope.event;
                    assert(after =~= before.push(after.last()));
                    assert(after.map_values(f) =~= before.map_values(f).push(after.last().event));
                }
            },
            _ => {},
        }
        outcome
    }

    /// Ends an installation with its outcome.
    pub fn finish_install(&mut self, outcome: Result<(), UpdateServiceError>) -> (r: Result<
        (),
        UpdateServiceError,
    >)
        requires
            old(self).wf(),
        ensures
            final(self).wf(),
            !final(self).is_busy(),
            r == outcome,
            final(self).published() == old(self).published(),
    {
        self.busy = false;
        outcome
    }
}

/// Turns the updater's download callbacks into ordered progress: `Started` once before
/// anything else, a `Progress` per chunk with the running total, and `Finished`.
pub struct DownloadProgress {
    started: bool,
    downloaded: u64,
}

impl DownloadProgress {
    pub closed spec fn has_started(&self) -> bool {
        self.started
    }

    /// Bytes received so far (the running total wraps at 2^64, as an atomic counter does).
    pub closed spec fn total(&self) -> u64 {
        self.downloaded
    }

    pub fn new() -> (r: Self)
        ensures
            !r.has_started(),
            r.total() == 0,
    {
        DownloadProgress { started: false, downloaded: 0 }
    }

    /// A chunk of `chunk_length` bytes arrived; returns the progress to report, in order.
    pub fn on_chunk(&mut self, chunk_length: u64, content_length: Option<u64>) -> (r: Vec<
        UpdateProgress,
    >)
        ensures
            final(self).has_started(),
            final(self).total() == (old(self).total() + chunk_length) % 0x1_0000_0000_0000_0000,
            r@ == if old(self).has_started() {
                seq![
                    UpdateProgress::Progress {
                        chunk_length,
                        downloaded: final(self).total(),
                        content_length,
                    },
                ]
            } else {
                seq![
                    UpdateProgress::Started { content_length },
                    UpdateProgress::Progress {
                        chunk_length,
                        downloaded: final(self).total(),
                        content_length,
                    },
                ]
            },
    {
        let mut events: Vec<UpdateProgress> = Vec::new();
        if !self.started {
            self.started = true;
            events.push(UpdateProgress::Started { content_length });
        }
        self.downloaded = self.downloaded.wrapping_add(chunk_length);
        events.push(
            UpdateProgress::Progress { chunk_length, downloaded: self.downloaded, content_length },
        );
        proof {
            if old(self).has_started() {
                assert(events@ =~= seq![
                    UpdateProgress::Progress {
                        chunk_length,
                        downloaded: self.downloaded,
                        content_length,
                    },
                ]);
            } else {
                assert(events@ =~= seq![
                    UpdateProgress::Started { content_length },
                    UpdateProgress::Progress {
                        chunk_length,
                        downloaded: self.downloaded,
                        content_length,
                    },
                ]);
            }
        }
        events
    }

    /// The download finished; returns the progress to report, in order.
    pub fn on_finish(&mut self) -> (r: Vec<UpdateProgress>)
        ensures
            final(self).has_started(),
            final(self).total() == old(self).total(),
            r@ == if old(self).has_started() {
                seq![UpdateProgress::Finished { downloaded: old(self).total() }]
            } else {
                seq![
                    UpdateProgress::Started { content_length: None },
                    UpdateProgress::Finished { downloaded: old(self).total() },
                ]
            },
    {
        let mut events: Vec<UpdateProgress> = Vec::new();
        if !self.started {
            self.started = true;
            events.push(UpdateProgress::Started { content_length: None });
        }
        events.push(UpdateProgress::Finished { downloaded: self.downloaded });
        proof {
            if old(self).has_started() {
                assert(events@ =~= seq![UpdateProgress::Finished { downloaded: old(self).total() }]);
            } else {
                assert(events@ =~= seq![
                    UpdateProgress::Started { content_length: None },
                    UpdateProgress::Finished { downloaded: old(self).total() },
                ]);
            }
        }
        events
    }
}

} // verus!
