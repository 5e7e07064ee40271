//! Local file access requests: every path and limit is checked here before the filesystem
//! adapter sees it, and the adapter's change notifications become `FileChanged` events.
use vstd::prelude::*;

use crate::domain::event::{AppEvent, AppEventView, EventEnvelopeView};
use crate::domain::file::{FileChange, FileIndex, FileReadResult, FileWatch, FileWatchId};
use crate::event_bus::EventBus;
use crate::path::{path_is_absolute, spec_path_is_absolute};
use crate::text::{char_count, trim, trim_seq};

verus! {

pub const DEFAULT_MAX_READ_BYTES: u64 = 4 * 1024 * 1024;

pub const MAX_READ_BYTES: u64 = 16 * 1024 * 1024;

pub const DEFAULT_MAX_INDEX_ENTRIES: usize = 5_000;

pub const MAX_INDEX_ENTRIES: usize = 20_000;

pub const DEFAULT_MAX_INDEX_DEPTH: usize = 16;

pub const MAX_INDEX_DEPTH: usize = 64;

pub const MAX_FILE_PATH_CHARS: usize = 4_096;

pub const MAX_WATCH_ID_CHARS: usize = 128;

#[derive(Debug, Clone, Copy, PartialEq, Eq, Structural)]
pub enum FileServiceErrorKind {
    InvalidInput,
    NotFound,
    PermissionDenied,
    NotAFile,
    NotADirectory,
    TooLarge,
    NonUtf8,
    WatchUnavailable,
    WatchNotFound,
    Io,
}

#[derive(Debug)]
pub struct FileServiceError {
    kind: FileServiceErrorKind,
    message: String,
}

impl FileServiceError {
    pub closed spec fn spec_kind(&self) -> FileServiceErrorKind {
        self.kind
    }

    pub closed spec fn spec_message(&self) -> Seq<char> {
        self.message@
    }

    pub fn new(kind: FileServiceErrorKind, message: &str) -> (r: Self)
        ensures
            r.spec_kind() == kind,
            r.spec_message() == message@,
    {
        FileServiceError { kind, message: message.to_owned() }
    }

    pub fn invalid_input(message: &str) -> (r: Self)
        ensures
            r.spec_kind() == FileServiceErrorKind::InvalidInput,
            r.spec_message() == message@,
    {
        Self::new(FileServiceErrorKind::InvalidInput, message)
    }

    pub fn kind(&self) -> (r: FileServiceErrorKind)
        ensures
            r == self.spec_kind(),
    {
        self.kind
    }

    pub fn message(&self) -> (r: &str)
        ensures
            r@ == self.spec_message(),
    {
        self.message.as_str()
    }
}

/// The filesystem adapter: reading, indexing and watching local files.
///
/// The method contracts hold of an implementation whose `obeys_repository_contract` is
/// `true`: one whose answers are given by the model functions below. An implementation outside
/// verified code keeps the default `false`, and then the contracts claim nothing of it.
pub trait FileRepository {
    /// Whether this implementation keeps the method contracts below.
    closed spec fn obeys_repository_contract() -> bool {
        false
    }

    /// What reading `path` with the limit `max_bytes` answers.
    closed spec fn read_text_answer(&self, path: Seq<char>, max_bytes: u64) -> Result<
        FileReadResult,
        FileServiceError,
    > {
        arbitrary()
    }

    /// What indexing `root` with the given limits answers.
    closed spec fn index_answer(&self, root: Seq<char>, max_entries: usize, max_depth: usize) -> Result<
        FileIndex,
        FileServiceError,
    > {
        arbitrary()
    }

    /// What starting a watch of `path` answers.
    closed spec fn start_watch_answer(&self, path: Seq<char>, recursive: bool) -> Result<
        FileWatch,
        FileServiceError,
    > {
        arbitrary()
    }

    /// What stopping the watch `watch_id` answers.
    closed spec fn stop_watch_answer(&self, watch_id: Seq<char>) -> Result<bool, FileServiceError> {
        arbitrary()
    }

    /// What stopping every watch answers.
    closed spec fn shutdown_answer(&self) -> usize {
        0
    }

    fn read_text(&self, path: &str, max_bytes: u64) -> (r: Result<FileReadResult, FileServiceError>)
        ensures
            Self::obeys_repository_contract() ==> r == self.read_text_answer(path@, max_bytes),
    ;

    fn index_directory(&self, root: &str, max_entries: usize, max_depth: usize) -> (r: Result<
        FileIndex,
        FileServiceError,
    >)
        ensures
            Self::obeys_repository_contract() ==> r == self.index_answer(root@, max_entries, max_depth),
    ;

    /// Starts watching `path`; the adapter reports changes through `FileService::publish_change`.
    fn start_watch(&self, path: &str, recursive: bool) -> (r: Result<FileWatch, FileServiceError>)
        ensures
            Self::obeys_repository_contract() ==> r == self.start_watch_answer(path@, recursive),
    ;

    /// Stops the watch `watch_id`; `false` when there is no such watch.
    fn stop_watch(&self, watch_id: &FileWatchId) -> (r: Result<bool, FileServiceError>)
        ensures
            Self::obeys_repository_contract() ==> r == self.stop_watch_answer(watch_id.0@),
    ;

    fn clear_cache(&self);

    /// Stops every watch and returns how many were stopped.
    fn shutdown(&self) -> (r: usize)
        ensures
            Self::obeys_repository_contract() ==> r == self.shutdown_answer(),
    ;
}

/// A request path: not blank, at most 4096 characters once trimmed, and absolute.
pub open spec fn is_valid_file_path(value: Seq<char>) -> bool {
    let path = trim_seq(value);
    &&& 1 <= path.len() <= MAX_FILE_PATH_CHARS
    &&& spec_path_is_absolute(path)
}

/// A watch id: not blank and at most 128 characters once trimmed.
pub open spec fn is_valid_watch_id(value: Seq<char>) -> bool {
    1 <= trim_seq(value).len() <= MAX_WATCH_ID_CHARS
}

/// The read limit to use: 4 MiB unless given; a given limit must be 1 byte to 16 MiB.
pub open spec fn read_limit(max_bytes: Option<u64>) -> Option<u64> {
    let limit = match max_bytes {
        Some(limit) => limit,
        None => DEFAULT_MAX_READ_BYTES,
    };
    if 1 <= limit <= MAX_READ_BYTES {
        Some(limit)
    } else {
        None
    }
}

/// The index limits to use: 5000 entries and depth 16 unless given; at most 20000 entries
/// (and at least one) and depth 64.
pub open spec fn index_limits(max_entries: Option<usize>, max_depth: Option<usize>) -> Option<
    (usize, usize),
> {
    let entries = match max_entries {
        Some(value) => value,
        None => DEFAULT_MAX_INDEX_ENTRIES,
    };
    let depth = match max_depth {
        Some(value) => value,
        None => DEFAULT_MAX_INDEX_DEPTH,
    };
    if 1 <= entries <= MAX_INDEX_ENTRIES && depth <= MAX_INDEX_DEPTH {
        Some((entries, depth))
    } else {
        None
    }
}

/// The read limit to hand the repository, as `read_limit` gives it.
pub fn resolve_read_limit(max_bytes: Option<u64>) -> (r: Option<u64>)
    ensures
        r == read_limit(max_bytes),
{
    let limit = match max_bytes {
        Some(limit) => limit,
        None => DEFAULT_MAX_READ_BYTES,
    };
    if limit == 0 || limit > MAX_READ_BYTES {
        None
    } else {
        Some(limit)
    }
}

/// The entry and depth limits to hand the repository, as `index_limits` gives them.
pub fn resolve_index_limits(max_entries: Option<usize>, max_depth: Option<usize>) -> (r: Option<
    (usize, usize),
>)
    ensures
        r == index_limits(max_entries, max_depth),
{
    let entries = match max_entries {
        Some(value) => value,
        None => DEFAULT_MAX_INDEX_ENTRIES,
    };
    let depth = match max_depth {
        Some(value) => value,
        None => DEFAULT_MAX_INDEX_DEPTH,
    };
    if entries == 0 || entries > MAX_INDEX_ENTRIES || depth > MAX_INDEX_DEPTH {
        None
    } else {
        Some((entries, depth))
    }
}

/// What stopping `watch_id` comes to once the repository answered whether it had that watch:
/// the id when it had, and `WatchNotFound` when it had not.
pub fn watch_stop_outcome(watch_id: FileWatchId, found: bool) -> (r: Result<
    FileWatchId,
    FileServiceError,
>)
    ensures
        found ==> r == Ok::<FileWatchId, FileServiceError>(watch_id),
        !found ==> (r matches Err(e) && e.spec_kind() == FileServiceErrorKind::WatchNotFound),
{
    if found {
        Ok(watch_id)
    } else {
        Err(
            FileServiceError::new(
                FileServiceErrorKind::WatchNotFound,
                "file watch registration was not found",
            ),
        )
    }
}

/// Checks a request path and returns it trimmed.
pub fn validate_path(value: &str) -> (r: Result<String, FileServiceError>)
    ensures
        r is Ok <==> is_valid_file_path(value@),
        r matches Ok(path) ==> path@ == trim_seq(value@),
        r matches Err(e) ==> e.spec_kind() == FileServiceErrorKind::InvalidInput,
{
    let value = trim(value);
    let length = char_count(value);
    if length == 0 || length > MAX_FILE_PATH_CHARS {
        return Err(FileServiceError::invalid_input("file path is invalid"));
    }
    if !path_is_absolute(value) {
        return Err(FileServiceError::invalid_input("file path must be absolute"));
    }
    Ok(value.to_owned())
}

/// Checks a watch id and returns it trimmed.
pub fn validate_watch_id(value: &str) -> (r: Result<FileWatchId, FileServiceError>)
    ensures
        r is Ok <==> is_valid_watch_id(value@),
        r matches Ok(id) ==> id.0@ == trim_seq(value@),
        r matches Err(e) ==> e.spec_kind() == FileServiceErrorKind::InvalidInput,
{
    let value = trim(value);
    let length = char_count(value);
    if length == 0 || length > MAX_WATCH_ID_CHARS {
        return Err(FileServiceError::invalid_input("watch id is invalid"));
    }
    Ok(FileWatchId::new(value))
}

pub struct FileService<R> {
    repository: R,
    event_bus: EventBus,
}

impl<R: FileRepository> FileService<R> {
    pub closed spec fn spec_repository(&self) -> R {
        self.repository
    }

    pub closed spec fn spec_event_bus(&self) -> EventBus {
        self.event_bus
    }

    /// Every event this service published, in order.
    pub open spec fn published(&self) -> Seq<AppEventView> {
        self.spec_event_bus().published().map_values(|envelope: EventEnvelopeView| envelope.event)
    }

    pub open spec fn wf(&self) -> bool {
        self.spec_event_bus().wf()
    }

    pub fn new(repository: R, event_bus: EventBus) -> (r: Self)
        requires
            event_bus.wf(),
        ensures
            r.wf(),
            r.spec_repository() == repository,
            r.spec_event_bus() == event_bus,
    {
        FileService { repository, event_bus }
    }

    pub fn repository(&self) -> (r: &R)
        ensures
            *r == self.spec_repository(),
    {
        &self.repository
    }

    pub fn event_bus(&self) -> (r: &EventBus)
        ensures
            *r == self.spec_event_bus(),
    {
        &self.event_bus
    }

    /// Reads a UTF-8 text file of at most `max_bytes` (4 MiB unless given).
    pub fn read_text_file(&self, path: &str, max_bytes: Option<u64>) -> (r: Result<
        FileReadResult,
        FileServiceError,
    >)
        ensures
            !is_valid_file_path(path@) || read_limit(max_bytes) is None ==> (r matches Err(e)
                && e.spec_kind() == FileServiceErrorKind::InvalidInput),
            R::obeys_repository_contract() && is_valid_file_path(path@) && read_limit(max_bytes)
                is Some ==> r == self.spec_repository().read_text_answer(
                trim_seq(path@),
                read_limit(max_bytes)->0,
            ),
    {
        let path = validate_path(path)?;
        let max_bytes = match resolve_read_limit(max_bytes) {
            Some(limit) => limit,
            None => {
                return Err(FileServiceError::invalid_input("max_bytes must be between 1 and 16777216"));
            },
        };
        self.repository.read_text(path.as_str(), max_bytes)
    }

    /// Lists the files under `root`, up to `max_entries` entries and `max_depth` levels.
    pub fn index_directory(
        &self,
        root: &str,
        max_entries: Option<usize>,
        max_depth: Option<usize>,
    ) -> (r: Result<FileIndex, FileServiceError>)
        ensures
            !is_valid_file_path(root@) || index_limits(max_entries, max_depth) is None ==> (r matches Err(
                e,
            ) && e.spec_kind() == FileServiceErrorKind::InvalidInput),
            R::obeys_repository_contract() && is_valid_file_path(root@) && index_limits(
                max_entries,
                max_depth,
            ) is Some ==> {
                let (entries, depth) = index_limits(max_entries, max_depth)->0;
                r == self.spec_repository().index_answer(trim_seq(root@), entries, depth)
            },
    {
        let root = validate_path(root)?;
        let (max_entries, max_depth) = match resolve_index_limits(max_entries, max_depth) {
            Some(limits) => limits,
            None => {
                let entries_in_range = match max_entries {
                    Some(value) => 1 <= value && value <= MAX_INDEX_ENTRIES,
                    None => true,
                };
                if !entries_in_range {
                    return Err(FileServiceError::invalid_input("max_entries must be between 1 and 20000"));
                }
                return Err(FileServiceError::invalid_input("max_depth must not exceed 64"));
            },
        };
        self.repository.index_directory(root.as_str(), max_entries, max_depth)
    }

    /// Starts watching `path`.
    pub fn start_watch(&self, path: &str, recursive: bool) -> (r: Result<FileWatch, FileServiceError>)
        ensures
            !is_valid_file_path(path@) ==> (r matches Err(e) && e.spec_kind()
                == FileServiceErrorKind::InvalidInput),
            R::obeys_repository_contract() && is_valid_file_path(path@) ==> r
                == self.spec_repository().start_watch_answer(trim_seq(path@), recursive),
    {
        let path = validate_path(path)?;
        self.repository.start_watch(path.as_str(), recursive)
    }

    /// Stops the watch `watch_id`; an unknown watch is a stable `WatchNotFound` error.
    pub fn stop_watch(&self, watch_id: &str) -> (r: Result<FileWatchId, FileServiceError>)
        ensures
            !is_valid_watch_id(watch_id@) ==> (r matches Err(e) && e.spec_kind()
                == FileServiceErrorKind::InvalidInput),
            r matches Ok(id) ==> is_valid_watch_id(watch_id@) && id.0@ == trim_seq(watch_id@),
            R::obeys_repository_contract() && is_valid_watch_id(watch_id@) ==> match self.spec_repository().stop_watch_answer(
                trim_seq(watch_id@),
            ) {
                Ok(true) => r matches Ok(id) && id.0@ == trim_seq(watch_id@),
                Ok(false) => r matches Err(e) && e.spec_kind() == FileServiceErrorKind::WatchNotFound,
                Err(e) => r == Err::<FileWatchId, FileServiceError>(e),
            },
    {
        let watch_id = validate_watch_id(watch_id)?;
        let found = match self.repository.stop_watch(&watch_id) {
            Ok(found) => found,
            Err(error) => {
                return Err(error);
            },
        };
        watch_stop_outcome(watch_id, found)
    }

    /// Announces a change the adapter saw under a watched path.
    pub fn publish_change(&mut self, change: FileChange)
        requires
            old(self).wf(),
        ensures
            final(self).wf(),
            final(self).spec_repository() == old(self).spec_repository(),
            final(self).published() == old(self).published().push(
                AppEventView::FileChanged { change },
            ),
    {
        let ghost before = self.event_bus.published();
        let ghost event = AppEvent::FileChanged { change };
        self.event_bus.publish(AppEvent::FileChanged { change });
        proof {
            let after = self.event_bus.published();
            let f = |envelope: EventEnvelopeView| envelope.event;
            assert(after =~= before.push(after.last()));
            assert(after.map_values(f) =~= before.map_values(f).push(event@));
        }
    }

    pub fn clear_cache(&self) {
        self.repository.clear_cache();
    }

    /// Stops every watch; returns how many were stopped.
    pub fn shutdown(&self) -> (r: usize)
        ensures
            R::obeys_repository_contract() ==> r == self.spec_repository().shutdown_answer(),
    {
        self.repository.shutdown()
    }
}

} // verus!
