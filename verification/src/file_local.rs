//! The decisions of the local filesystem adapter: what may be read, when cached text is still
//! valid, how bytes become text, which directory entries an index records, and how watches
//! are named. The adapter performs the filesystem calls and hands their results here.
use vstd::prelude::*;

use crate::domain::file::{FileChangeKind, FileEntry, FileWatchId};
use crate::file_service::{FileServiceError, FileServiceErrorKind};
use crate::task_id::{append_padded_decimal, padded_decimal};
use vstd::utf8::{decode_utf8, valid_utf8};

verus! {

/// Width of the zero-padded sequence number in a watch id.
pub const WATCH_ID_DIGITS: u8 = 16;

/// What identifies one version of a file's content: its size and modification time.
#[derive(Debug, Clone, Copy, PartialEq, Eq, Structural)]
pub struct FileSignature {
    pub size_bytes: u64,
    pub modified_at_unix_ns: Option<u128>,
}

/// Cached text may be served only while the file still has the signature it was read with.
pub fn cached_text_is_current(cached: FileSignature, current: FileSignature) -> (r: bool)
    ensures
        r == (cached == current),
{
    cached.size_bytes == current.size_bytes && cached.modified_at_unix_ns
        == current.modified_at_unix_ns
}

/// A path may be read as text when it is a regular file no larger than `max_bytes`.
pub fn check_readable(is_file: bool, length: u64, max_bytes: u64) -> (r: Result<(), FileServiceError>)
    ensures
        !is_file ==> (r matches Err(e) && e.spec_kind() == FileServiceErrorKind::NotAFile),
        is_file && length > max_bytes ==> (r matches Err(e) && e.spec_kind()
            == FileServiceErrorKind::TooLarge),
        is_file && length <= max_bytes ==> r is Ok,
{
    if !is_file {
        return Err(
            FileServiceError::new(FileServiceErrorKind::NotAFile, "requested path is not a regular file"),
        );
    }
    if length > max_bytes {
        return Err(
            FileServiceError::new(FileServiceErrorKind::TooLarge, "file exceeds the configured read limit"),
        );
    }
    Ok(())
}

/// Calls `String::from_utf8` on `bytes`, which fails exactly when they are not UTF-8.
#[verifier::external_body]
fn utf8_text(bytes: Vec<u8>) -> (r: Option<String>)
    ensures
        match r {
            Some(text) => valid_utf8(bytes@) && text@ == decode_utf8(bytes@),
            None => !valid_utf8(bytes@),
        },
{
    String::from_utf8(bytes).ok()
}

/// The text of the bytes read (at most `max_bytes` plus one, to notice growth): too many bytes
/// mean the file grew past the limit, and bytes that are not UTF-8 are no text.
pub fn decode_text(bytes: Vec<u8>, max_bytes: u64) -> (r: Result<String, FileServiceError>)
    ensures
        bytes@.len() > max_bytes ==> (r matches Err(e) && e.spec_kind()
            == FileServiceErrorKind::TooLarge),
        bytes@.len() <= max_bytes && !valid_utf8(bytes@) ==> (r matches Err(e) && e.spec_kind()
            == FileServiceErrorKind::NonUtf8),
        bytes@.len() <= max_bytes && valid_utf8(bytes@) ==> (r matches Ok(text) && text@
            == decode_utf8(bytes@)),
{
    if bytes.len() as u64 > max_bytes {
        return Err(
            FileServiceError::new(
                FileServiceErrorKind::TooLarge,
                "file grew beyond the configured read limit",
            ),
        );
    }
    match utf8_text(bytes) {
        Some(text) => Ok(text),
        None => Err(FileServiceError::new(FileServiceErrorKind::NonUtf8, "file is not valid UTF-8 text")),
    }
}

/// The listing entry of a path: directories and other non-files count as zero bytes.
pub fn file_entry(
    path: String,
    name: Option<String>,
    extension: Option<String>,
    is_file: bool,
    is_directory: bool,
    length: u64,
    modified_at_unix_ms: Option<u64>,
) -> (r: FileEntry)
    ensures
        r.path == path,
        r.name@ == match name {
            Some(text) => text@,
            None => Seq::<char>::empty(),
        },
        r.extension == extension,
        r.size_bytes == if is_file {
            length
        } else {
            0
        },
        r.modified_at_unix_ms == modified_at_unix_ms,
        r.is_directory == is_directory,
{
    let name = match name {
        Some(text) => text,
        None => String::new(),
    };
    FileEntry {
        path,
        name,
        extension,
        size_bytes: if is_file {
            length
        } else {
            0
        },
        modified_at_unix_ms,
        is_directory,
    }
}

/// What an index walk does with one directory entry, in sorted order.
#[derive(Debug, Clone, Copy, PartialEq, Eq, Structural)]
pub enum IndexStep {
    /// The entry limit is reached: stop, and mark the index truncated.
    StopTruncated,
    /// Symbolic links are neither recorded nor followed.
    Skip,
    /// Record the entry.
    Record,
    /// Record the directory and walk into it.
    RecordAndDescend,
}

/// The step for an entry found at `depth` when `recorded` entries are already in the index.
pub fn index_step(
    recorded: usize,
    max_entries: usize,
    is_symlink: bool,
    is_directory: bool,
    depth: usize,
    max_depth: usize,
) -> (r: IndexStep)
    ensures
        r == if recorded >= max_entries {
            IndexStep::StopTruncated
        } else if is_symlink {
            IndexStep::Skip
        } else if is_directory && depth < max_depth {
            IndexStep::RecordAndDescend
        } else {
            IndexStep::Record
        },
{
    if recorded >= max_entries {
        IndexStep::StopTruncated
    } else if is_symlink {
        IndexStep::Skip
    } else if is_directory && depth < max_depth {
        IndexStep::RecordAndDescend
    } else {
        IndexStep::Record
    }
}

/// A recursive watch needs a directory to watch.
pub fn check_watch_root(recursive: bool, is_directory: bool) -> (r: Result<(), FileServiceError>)
    ensures
        r is Ok <==> (!recursive || is_directory),
        r matches Err(e) ==> e.spec_kind() == FileServiceErrorKind::InvalidInput,
{
    if recursive && !is_directory {
        return Err(
            FileServiceError::invalid_input("recursive watches require a directory"),
        );
    }
    Ok(())
}

/// The id text of the watch with sequence number `sequence`.
pub open spec fn watch_id_text(sequence: nat) -> Seq<char> {
    "watch-"@ + padded_decimal(sequence, WATCH_ID_DIGITS as nat)
}

/// The id of the watch with sequence number `sequence`: `watch-` and sixteen digits.
pub fn watch_id_for(sequence: u64) -> (r: FileWatchId)
    ensures
        r.0@ == watch_id_text(sequence as nat),
{
    let mut text = String::from_str("watch-");
    append_padded_decimal(&mut text, sequence, WATCH_ID_DIGITS);
    FileWatchId(text)
}

/// How a filesystem call failed, as far as the service distinguishes.
#[derive(Debug, Clone, Copy, PartialEq, Eq, Structural)]
pub enum IoFailure {
    NotFound,
    PermissionDenied,
    Other,
}

/// The service error of a failed filesystem call.
pub fn map_io_failure(failure: IoFailure, context: &str) -> (r: FileServiceError)
    ensures
        r.spec_kind() == match failure {
            IoFailure::NotFound => FileServiceErrorKind::NotFound,
            IoFailure::PermissionDenied => FileServiceErrorKind::PermissionDenied,
            IoFailure::Other => FileServiceErrorKind::Io,
        },
        r.spec_message() == context@,
{
    let kind = match failure {
        IoFailure::NotFound => FileServiceErrorKind::NotFound,
        IoFailure::PermissionDenied => FileServiceErrorKind::PermissionDenied,
        IoFailure::Other => FileServiceErrorKind::Io,
    };
    FileServiceError::new(kind, context)
}

/// The kind of change a filesystem event reports.
#[derive(Debug, Clone, Copy, PartialEq, Eq, Structural)]
pub enum WatchEventKind {
    Create,
    Modify,
    Remove,
    Access,
    Any,
    Other,
}

pub fn map_change_kind(kind: WatchEventKind) -> (r: FileChangeKind)
    ensures
        r == match kind {
            WatchEventKind::Create => FileChangeKind::Created,
            WatchEventKind::Modify => FileChangeKind::Modified,
            WatchEventKind::Remove => FileChangeKind::Removed,
            _ => FileChangeKind::Other,
        },
{
    match kind {
        WatchEventKind::Create => FileChangeKind::Created,
        WatchEventKind::Modify => FileChangeKind::Modified,
        WatchEventKind::Remove => FileChangeKind::Removed,
        _ => FileChangeKind::Other,
    }
}

} // verus!
