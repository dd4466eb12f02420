use crate::domain::playlist::{is_playlist_id, PlaylistId};
use vstd::prelude::*;

verus! {

/// Deletes a deleted playlist's output directory with all it holds,
/// scheduled by `DeletePlaylistFilesOnPlaylistDeleted`.
pub struct DeletePlaylistFilesTask<D> {
    pub video_file_deleter: D,
}

impl<D> DeletePlaylistFilesTask<D> {
    pub fn new(video_file_deleter: D) -> (s: Self)
        ensures
            s.video_file_deleter == video_file_deleter,
    {
        DeletePlaylistFilesTask { video_file_deleter }
    }

    /// The playlist and directory a task carrying `playlist_id` and `path`
    /// deletes the files of; none when the id is not a playlist id, and the
    /// task then succeeds doing nothing.
    pub fn deletion(&self, playlist_id: String, path: String) -> (r: Option<(PlaylistId, String)>)
        ensures
            r is Some <==> is_playlist_id(playlist_id@),
            r matches Some(d) ==> d.0@ == playlist_id@ && d.1 == path,
    {
        match PlaylistId::new(playlist_id) {
            Some(id) => Some((id, path)),
            None => None,
        }
    }
}

} // verus!
