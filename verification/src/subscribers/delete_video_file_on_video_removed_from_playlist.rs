use super::{delete_video_file_task, delete_video_file_task_view};
use crate::domain::playlist::{is_playlist_id, Playlist, PlaylistId};
use crate::domain::task::{opt_view, Task};
use vstd::prelude::*;

verus! {

/// The payload of a `VideoRemovedFromPlaylist` event.
#[derive(Debug, Clone, PartialEq, Eq)]
pub struct VideoRemovedFromPlaylistPayload {
    pub playlist_id: String,
    pub filename: Option<String>,
    pub thumbnail_filename: Option<String>,
    pub was_downloaded: bool,
}

/// Reacts to `VideoRemovedFromPlaylist` by scheduling a `DeleteVideoFile`
/// task to run now, only when the video was downloaded: a video that never
/// finished downloading has no file to clean up. The playlist is looked up
/// for its output directory before scheduling.
pub struct DeleteVideoFileOnVideoRemovedFromPlaylist<P, T, C> {
    pub playlist_repository: P,
    pub task_repository: T,
    pub clock: C,
    pub videos_path: String,
}

impl<P, T, C> DeleteVideoFileOnVideoRemovedFromPlaylist<P, T, C> {
    pub fn new(playlist_repository: P, task_repository: T, clock: C, videos_path: String) -> (s:
        Self)
        ensures
            s.playlist_repository == playlist_repository,
            s.task_repository == task_repository,
            s.clock == clock,
            s.videos_path == videos_path,
    {
        DeleteVideoFileOnVideoRemovedFromPlaylist {
            playlist_repository,
            task_repository,
            clock,
            videos_path,
        }
    }

    /// The playlist to look up for the event: the one it names, when that
    /// id is a playlist id and the video was downloaded; otherwise none, and
    /// the event is dropped.
    pub fn playlist_to_find(&self, payload: &VideoRemovedFromPlaylistPayload) -> (r: Option<
        PlaylistId,
    >)
        ensures
            r is Some <==> is_playlist_id(payload.playlist_id@) && payload.was_downloaded,
            r matches Some(id) ==> id@ == payload.playlist_id@,
    {
        let id = PlaylistId::new(payload.playlist_id.clone());
        if id.is_none() {
            return None;
        }
        if !payload.was_downloaded {
            return None;
        }
        id
    }

    /// The task to schedule once the playlist was looked up: the deletion
    /// of the video's file and thumbnail from the playlist's directory under
    /// the videos root; none when the playlist no longer exists.
    pub fn task_for(&self, payload: VideoRemovedFromPlaylistPayload, playlist: Option<&Playlist>) -> (r:
        Option<Task>)
        ensures
            r is Some <==> playlist is Some,
            playlist matches Some(p) ==> r matches Some(t) && t@ == delete_video_file_task_view(
                self.videos_path@,
                opt_view(payload.filename),
                opt_view(payload.thumbnail_filename),
                p.path@,
            ),
    {
        match playlist {
            None => None,
            Some(p) => Some(
                delete_video_file_task(
                    self.videos_path.as_str(),
                    payload.filename,
                    payload.thumbnail_filename,
                    p.path.as_str(),
                ),
            ),
        }
    }
}

} // verus!
