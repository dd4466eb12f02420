use super::error::{ApiError, STATUS_BAD_REQUEST, STATUS_INTERNAL_SERVER_ERROR, STATUS_NOT_FOUND};
use crate::domain::directory::{list_directories_error_message, Directory, ListDirectoriesError};
use crate::text::{contains_parent_segment, has_parent_segment};
use vstd::prelude::*;

verus! {

/// The query of a directory listing: the directory to list, relative to the
/// videos root; the root itself when absent.
#[derive(Debug, Clone, PartialEq, Eq)]
pub struct ListDirectoriesQuery {
    pub path: Option<String>,
}

/// One subdirectory of a listed directory.
#[derive(Debug, Clone, PartialEq, Eq)]
pub struct DirectoryEntryResponse {
    pub name: String,
}

/// A listed directory.
#[derive(Debug, Clone, PartialEq, Eq)]
pub struct DirectoryResponse {
    /// The absolute configured videos root. No other endpoint exposes it, and
    /// a destination preview cannot be rendered without it; it is reported
    /// on every listing so a caller never has to order one request before
    /// another.
    pub root: String,
    pub path: String,
    pub entries: Vec<DirectoryEntryResponse>,
}

/// `r` lists `directory` under the videos root `videos_root`: its path and
/// one entry per subdirectory, in order.
pub open spec fn lists_directory(r: DirectoryResponse, videos_root: Seq<char>, directory: Directory) -> bool {
    &&& r.root@ == videos_root
    &&& r.path == directory.path
    &&& r.entries.len() == directory.subdirectories.len()
    &&& forall|i: int|
        0 <= i < r.entries.len() ==> #[trigger] r.entries[i].name == directory.subdirectories[i]
}

impl DirectoryResponse {
    pub fn new(videos_root: &str, directory: Directory) -> (r: Self)
        ensures
            lists_directory(r, videos_root@, directory),
    {
        let ghost subdirectories = directory.subdirectories@;
        let mut entries: Vec<DirectoryEntryResponse> = Vec::new();
        for name in it: directory.subdirectories
            invariant
                it.seq() == subdirectories,
                entries.len() == it.index(),
                forall|i: int| 0 <= i < entries.len() ==> #[trigger] entries[i].name == subdirectories[i],
        {
            entries.push(DirectoryEntryResponse { name });
        }
        DirectoryResponse { root: videos_root.to_string(), path: directory.path, entries }
    }
}

/// The message a directory path that climbs out of the videos root is
/// rejected with.
pub const PARENT_SEGMENT_IN_PATH: &'static str = "Directory path must not contain \"..\" segments";

/// The directory a listing asks for, relative to the videos root (the root
/// itself, the empty path, when none is named), or the message it is
/// rejected with when the path has a `..` segment.
pub open spec fn directory_checked(query: ListDirectoriesQuery) -> Result<Seq<char>, Seq<char>> {
    match query.path {
        None => Ok(Seq::empty()),
        Some(p) => if has_parent_segment(p@) {
            Err(PARENT_SEGMENT_IN_PATH@)
        } else {
            Ok(p@)
        },
    }
}

/// Checks the directory a listing asks for before anything is read: its
/// path, or `400 Bad Request` when the path has a `..` segment.
pub fn directory_to_list(query: ListDirectoriesQuery) -> (r: Result<String, ApiError>)
    ensures
        match directory_checked(query) {
            Ok(p) => r matches Ok(path) && path@ == p,
            Err(m) => r matches Err(e) && e@ == (STATUS_BAD_REQUEST, m),
        },
{
    match query.path {
        None => Ok(String::new()),
        Some(p) => if contains_parent_segment(p.as_str()) {
            Err(ApiError::bad_request(PARENT_SEGMENT_IN_PATH.to_string()))
        } else {
            Ok(p)
        },
    }
}

/// The answer to a directory listing: the listing under the videos root,
/// `404 Not Found` for a directory that does not exist, `500 Internal Server
/// Error` when the listing failed; each failure with its message.
pub fn list_directories_response(
    videos_root: &str,
    result: Result<Directory, ListDirectoriesError>,
) -> (r: Result<DirectoryResponse, ApiError>)
    ensures
        match result {
            Ok(d) => r matches Ok(resp) && lists_directory(resp, videos_root@, d),
            Err(err) => r matches Err(e) && e@ == (
                if err is NotFound {
                    STATUS_NOT_FOUND
                } else {
                    STATUS_INTERNAL_SERVER_ERROR
                },
                list_directories_error_message(err),
            ),
        },
{
    match result {
        Ok(d) => Ok(DirectoryResponse::new(videos_root, d)),
        Err(err) => {
            let m = err.message();
            match err {
                ListDirectoriesError::NotFound(_) => Err(ApiError::new(STATUS_NOT_FOUND, m)),
                ListDirectoriesError::Repository(_) => Err(ApiError::internal(m)),
            }
        },
    }
}

} // verus!
