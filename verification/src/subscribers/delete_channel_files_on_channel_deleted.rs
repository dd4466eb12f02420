use crate::domain::channel::{is_channel_handle, ChannelHandle};
use crate::domain::task::{Task, TaskView};
use vstd::prelude::*;

verus! {

/// The payload of a `ChannelDeleted` event.
#[derive(Debug, Clone, PartialEq, Eq)]
pub struct ChannelDeletedPayload {
    pub channel_id: String,
    pub path: String,
}

/// Reacts to `ChannelDeleted` by scheduling a `DeleteChannelFiles` task to
/// run now, as `DeletePlaylistFilesOnPlaylistDeleted` does for playlists:
/// the channel is already gone, and its whole output directory is removed.
pub struct DeleteChannelFilesOnChannelDeleted<T, C> {
    pub task_repository: T,
    pub clock: C,
}

impl<T, C> DeleteChannelFilesOnChannelDeleted<T, C> {
    pub fn new(task_repository: T, clock: C) -> (s: Self)
        ensures
            s.task_repository == task_repository,
            s.clock == clock,
    {
        DeleteChannelFilesOnChannelDeleted { task_repository, clock }
    }

    /// The task to schedule for the event: the deletion of the channel's
    /// directory, carrying the event's id and path; none when that id is not
    /// a channel handle.
    pub fn task_for(&self, payload: ChannelDeletedPayload) -> (r: Option<Task>)
        ensures
            r is Some <==> is_channel_handle(payload.channel_id@),
            r matches Some(t) ==> t@ == (TaskView::DeleteChannelFiles {
                channel_id: payload.channel_id@,
                path: payload.path@,
            }),
    {
        let id = ChannelHandle::new(payload.channel_id.clone());
        if id.is_none() {
            return None;
        }
        Some(Task::DeleteChannelFiles { channel_id: payload.channel_id, path: payload.path })
    }
}

} // verus!
