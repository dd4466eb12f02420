use super::{download_video_task, download_video_task_view};
use crate::domain::channel::{is_channel_handle, Channel, ChannelHandle};
use crate::domain::task::Task;
use vstd::prelude::*;

verus! {

/// The payload of a `VideoAddedToChannel` event.
#[derive(Debug, Clone, PartialEq, Eq)]
pub struct VideoAddedToChannelPayload {
    pub channel_id: String,
    pub video_id: String,
}

/// Reacts to `VideoAddedToChannel` by scheduling a `DownloadVideo` task to
/// run now, as `DownloadVideoOnVideoAddedToPlaylist` does for playlists:
/// the owning channel is looked up for its quality and output directory.
pub struct DownloadVideoOnVideoAddedToChannel<R, T, C> {
    pub channel_repository: R,
    pub task_repository: T,
    pub clock: C,
    pub videos_path: String,
}

impl<R, T, C> DownloadVideoOnVideoAddedToChannel<R, T, C> {
    pub fn new(channel_repository: R, task_repository: T, clock: C, videos_path: String) -> (s:
        Self)
        ensures
            s.channel_repository == channel_repository,
            s.task_repository == task_repository,
            s.clock == clock,
            s.videos_path == videos_path,
    {
        DownloadVideoOnVideoAddedToChannel { channel_repository, task_repository, clock, videos_path }
    }

    /// The channel to look up for the event: the one it names, or none when
    /// that id is not a channel handle, and the event is then dropped.
    pub fn channel_to_find(&self, payload: &VideoAddedToChannelPayload) -> (r: Option<
        ChannelHandle,
    >)
        ensures
            r is Some <==> is_channel_handle(payload.channel_id@),
            r matches Some(id) ==> id@ == payload.channel_id@,
    {
        ChannelHandle::new(payload.channel_id.clone())
    }

    /// The task to schedule once the channel was looked up: the download of
    /// the event's video at the channel's quality into the channel's
    /// directory under the videos root; none when the channel no longer
    /// exists.
    pub fn task_for(&self, payload: VideoAddedToChannelPayload, channel: Option<&Channel>) -> (r:
        Option<Task>)
        ensures
            r is Some <==> channel is Some,
            channel matches Some(c) ==> r matches Some(t) && t@ == download_video_task_view(
                self.videos_path@,
                payload.video_id@,
                c.quality,
                c.path@,
            ),
    {
        match channel {
            None => None,
            Some(c) => Some(
                download_video_task(
                    self.videos_path.as_str(),
                    payload.video_id,
                    c.quality,
                    c.path.as_str(),
                ),
            ),
        }
    }
}

} // verus!
