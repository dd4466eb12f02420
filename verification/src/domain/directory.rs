use crate::text::concat3;
use vstd::prelude::*;

verus! {

/// A directory under the videos root and the names of its subdirectories.
#[derive(Debug, Clone, PartialEq, Eq)]
pub struct Directory {
    /// Relative to the videos root.
    pub path: String,
    pub subdirectories: Vec<String>,
}

/// Why listing a directory failed: it does not exist (its path), or the
/// repository failed (its message).
#[derive(Debug, Clone, PartialEq, Eq)]
pub enum ListDirectoriesError {
    NotFound(String),
    Repository(String),
}

/// What a failed directory listing says: that no such directory exists under
/// the videos root, or the message of the failed repository.
pub open spec fn list_directories_error_message(e: ListDirectoriesError) -> Seq<char> {
    match e {
        ListDirectoriesError::NotFound(p) => "no directory \""@ + p@
            + "\" exists under the videos root"@,
        ListDirectoriesError::Repository(m) => m@,
    }
}

impl ListDirectoriesError {
    pub fn message(&self) -> (r: String)
        ensures
            r@ == list_directories_error_message(*self),
    {
        match self {
            ListDirectoriesError::NotFound(p) => concat3(
                "no directory \"",
                p.as_str(),
                "\" exists under the videos root",
            ),
            ListDirectoriesError::Repository(m) => m.clone(),
        }
    }
}

} // verus!
