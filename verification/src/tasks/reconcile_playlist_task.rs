use crate::domain::playlist::{is_playlist_id, PlaylistId};
use vstd::prelude::*;

verus! {

/// Runs every later reconcile of a playlist (the first one is run by
/// `ReconcileOnPlaylistCreated` instead).
pub struct ReconcilePlaylistTask<R> {
    pub playlist_video_reconciler: R,
}

impl<R> ReconcilePlaylistTask<R> {
    pub fn new(playlist_video_reconciler: R) -> (s: Self)
        ensures
            s.playlist_video_reconciler == playlist_video_reconciler,
    {
        ReconcilePlaylistTask { playlist_video_reconciler }
    }

    /// The playlist to reconcile for a task carrying `playlist_id`; none
    /// when that id is not a playlist id, and the task then succeeds doing
    /// nothing.
    pub fn playlist_to_reconcile(&self, playlist_id: String) -> (r: Option<PlaylistId>)
        ensures
            r is Some <==> is_playlist_id(playlist_id@),
            r matches Some(id) ==> id@ == playlist_id@,
    {
        PlaylistId::new(playlist_id)
    }
}

} // verus!
