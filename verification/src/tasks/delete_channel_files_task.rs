use crate::domain::channel::{is_channel_handle, ChannelHandle};
use vstd::prelude::*;

verus! {

/// Deletes a deleted channel's output directory with all it holds,
/// scheduled by `DeleteChannelFilesOnChannelDeleted`.
pub struct DeleteChannelFilesTask<D> {
    pub video_file_deleter: D,
}

impl<D> DeleteChannelFilesTask<D> {
    pub fn new(video_file_deleter: D) -> (s: Self)
        ensures
            s.video_file_deleter == video_file_deleter,
    {
        DeleteChannelFilesTask { video_file_deleter }
    }

    /// The channel and directory a task carrying `channel_id` and `path`
    /// deletes the files of; none when the id is not a channel handle, and
    /// the task then succeeds doing nothing.
    pub fn deletion(&self, channel_id: String, path: String) -> (r: Option<(ChannelHandle, String)>)
        ensures
            r is Some <==> is_channel_handle(channel_id@),
            r matches Some(d) ==> d.0@ == channel_id@ && d.1 == path,
    {
        match ChannelHandle::new(channel_id) {
            Some(id) => Some((id, path)),
            None => None,
        }
    }
}

} // verus!
