use crate::domain::playlist::{is_playlist_id, PlaylistId};
use crate::domain::task::{Task, TaskView};
use vstd::prelude::*;

verus! {

/// The payload of a `PlaylistDeleted` event.
#[derive(Debug, Clone, PartialEq, Eq)]
pub struct PlaylistDeletedPayload {
    pub playlist_id: String,
    pub path: String,
}

/// Reacts to `PlaylistDeleted` by scheduling a `DeletePlaylistFiles` task to
/// run now. No lookup or downloaded condition applies: the playlist is
/// already gone, and its whole output directory is removed.
pub struct DeletePlaylistFilesOnPlaylistDeleted<T, C> {
    pub task_repository: T,
    pub clock: C,
}

impl<T, C> DeletePlaylistFilesOnPlaylistDeleted<T, C> {
    pub fn new(task_repository: T, clock: C) -> (s: Self)
        ensures
            s.task_repository == task_repository,
            s.clock == clock,
    {
        DeletePlaylistFilesOnPlaylistDeleted { task_repository, clock }
    }

    /// The task to schedule for the event: the deletion of the playlist's
    /// directory, carrying the event's id and path; none when that id is not
    /// a playlist id.
    pub fn task_for(&self, payload: PlaylistDeletedPayload) -> (r: Option<Task>)
        ensures
            r is Some <==> is_playlist_id(payload.playlist_id@),
            r matches Some(t) ==> t@ == (TaskView::DeletePlaylistFiles {
                playlist_id: payload.playlist_id@,
                path: payload.path@,
            }),
    {
        let id = PlaylistId::new(payload.playlist_id.clone());
        if id.is_none() {
            return None;
        }
        Some(Task::DeletePlaylistFiles { playlist_id: payload.playlist_id, path: payload.path })
    }
}

} // verus!
