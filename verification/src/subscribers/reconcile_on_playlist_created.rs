use crate::domain::playlist::{is_playlist_id, PlaylistId};
use vstd::prelude::*;

verus! {

/// The payload of a `PlaylistCreated` event.
#[derive(Debug, Clone, PartialEq, Eq)]
pub struct PlaylistCreatedPayload {
    pub playlist_id: String,
}

/// Reacts to `PlaylistCreated` by running one reconcile pass for the new
/// playlist, as the event's own processing rather than as a scheduled task.
pub struct ReconcileOnPlaylistCreated<R> {
    pub playlist_video_reconciler: R,
}

impl<R> ReconcileOnPlaylistCreated<R> {
    pub fn new(playlist_video_reconciler: R) -> (s: Self)
        ensures
            s.playlist_video_reconciler == playlist_video_reconciler,
    {
        ReconcileOnPlaylistCreated { playlist_video_reconciler }
    }

    /// The playlist to reconcile: the one the event names, or none when that
    /// id is not a playlist id.
    pub fn playlist_to_reconcile(&self, payload: PlaylistCreatedPayload) -> (r: Option<PlaylistId>)
        ensures
            r is Some <==> is_playlist_id(payload.playlist_id@),
            r matches Some(id) ==> id@ == payload.playlist_id@,
    {
        PlaylistId::new(payload.playlist_id)
    }
}

} // verus!
