use super::{delete_video_file_task, delete_video_file_task_view};
use crate::domain::channel::{is_channel_handle, Channel, ChannelHandle};
use crate::domain::task::{opt_view, Task};
use vstd::prelude::*;

verus! {

/// The payload of a `VideoRemovedFromChannel` event.
#[derive(Debug, Clone, PartialEq, Eq)]
pub struct VideoRemovedFromChannelPayload {
    pub channel_id: String,
    pub filename: Option<String>,
    pub thumbnail_filename: Option<String>,
    pub was_downloaded: bool,
}

/// Reacts to `VideoRemovedFromChannel` by scheduling a `DeleteVideoFile`
/// task to run now, as `DeleteVideoFileOnVideoRemovedFromPlaylist` does for
/// playlists: only for a downloaded video, into the channel's directory.
pub struct DeleteVideoFileOnVideoRemovedFromChannel<R, T, C> {
    pub channel_repository: R,
    pub task_repository: T,
    pub clock: C,
    pub videos_path: String,
}

impl<R, T, C> DeleteVideoFileOnVideoRemovedFromChannel<R, T, C> {
    pub fn new(channel_repository: R, task_repository: T, clock: C, videos_path: String) -> (s:
        Self)
        ensures
            s.channel_repository == channel_repository,
            s.task_repository == task_repository,
            s.clock == clock,
            s.videos_path == videos_path,
    {
        DeleteVideoFileOnVideoRemovedFromChannel {
            channel_repository,
            task_repository,
            clock,
            videos_path,
        }
    }

    /// The channel to look up for the event: the one it names, when that id
    /// is a channel handle and the video was downloaded; otherwise none, and
    /// the event is dropped.
    pub fn channel_to_find(&self, payload: &VideoRemovedFromChannelPayload) -> (r: Option<
        ChannelHandle,
    >)
        ensures
            r is Some <==> is_channel_handle(payload.channel_id@) && payload.was_downloaded,
            r matches Some(id) ==> id@ == payload.channel_id@,
    {
        let id = ChannelHandle::new(payload.channel_id.clone());
        if id.is_none() {
            return None;
        }
        if !payload.was_downloaded {
            return None;
        }
        id
    }

    /// The task to schedule once the channel was looked up: the deletion of
    /// the video's file and thumbnail from the channel's directory under the
    /// videos root; none when the channel no longer exists.
    pub fn task_for(&self, payload: VideoRemovedFromChannelPayload, channel: Option<&Channel>) -> (r:
        Option<Task>)
        ensures
            r is Some <==> channel is Some,
            channel matches Some(c) ==> r matches Some(t) && t@ == delete_video_file_task_view(
                self.videos_path@,
                opt_view(payload.filename),
                opt_view(payload.thumbnail_filename),
                c.path@,
            ),
    {
        match channel {
            None => None,
            Some(c) => Some(
                delete_video_file_task(
                    self.videos_path.as_str(),
                    payload.filename,
                    payload.thumbnail_filename,
                    c.path.as_str(),
                ),
            ),
        }
    }
}

} // verus!
