use super::{download_video_task, download_video_task_view};
use crate::domain::playlist::{is_playlist_id, Playlist, PlaylistId};
use crate::domain::task::Task;
use vstd::prelude::*;

verus! {

/// The payload of a `VideoAddedToPlaylist` event.
#[derive(Debug, Clone, PartialEq, Eq)]
pub struct VideoAddedToPlaylistPayload {
    pub playlist_id: String,
    pub video_id: String,
}

/// Reacts to `VideoAddedToPlaylist` by scheduling a `DownloadVideo` task to
/// run now, rather than downloading inline: downloading is slow and
/// external, so it belongs on the task queue with its retries. The owning
/// playlist is looked up for its quality and output directory, which travel
/// with the scheduled task rather than being read again when it runs.
pub struct DownloadVideoOnVideoAddedToPlaylist<P, T, C> {
    pub playlist_repository: P,
    pub task_repository: T,
    pub clock: C,
    pub videos_path: String,
}

impl<P, T, C> DownloadVideoOnVideoAddedToPlaylist<P, T, C> {
    pub fn new(playlist_repository: P, task_repository: T, clock: C, videos_path: String) -> (s:
        Self)
        ensures
            s.playlist_repository == playlist_repository,
            s.task_repository == task_repository,
            s.clock == clock,
            s.videos_path == videos_path,
    {
        DownloadVideoOnVideoAddedToPlaylist {
            playlist_repository,
            task_repository,
            clock,
            videos_path,
        }
    }

    /// The playlist to look up for the event: the one it names, or none
    /// when that id is not a playlist id, and the event is then dropped.
    pub fn playlist_to_find(&self, payload: &VideoAddedToPlaylistPayload) -> (r: Option<
        PlaylistId,
    >)
        ensures
            r is Some <==> is_playlist_id(payload.playlist_id@),
            r matches Some(id) ==> id@ == payload.playlist_id@,
    {
        PlaylistId::new(payload.playlist_id.clone())
    }

    /// The task to schedule once the playlist was looked up: the download
    /// of the event's video at the playlist's quality into the playlist's
    /// directory under the videos root; none when the playlist no longer
    /// exists.
    pub fn task_for(&self, payload: VideoAddedToPlaylistPayload, playlist: Option<&Playlist>) -> (r:
        Option<Task>)
        ensures
            r is Some <==> playlist is Some,
            playlist matches Some(p) ==> r matches Some(t) && t@ == download_video_task_view(
                self.videos_path@,
                payload.video_id@,
                p.quality,
                p.path@,
            ),
    {
        match playlist {
            None => None,
            Some(p) => Some(
                download_video_task(
                    self.videos_path.as_str(),
                    payload.video_id,
                    p.quality,
                    p.path.as_str(),
                ),
            ),
        }
    }
}

} // verus!
