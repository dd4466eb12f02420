use crate::domain::channel::{is_channel_handle, ChannelHandle};
use vstd::prelude::*;

verus! {

/// The payload of a `ChannelCreated` event.
#[derive(Debug, Clone, PartialEq, Eq)]
pub struct ChannelCreatedPayload {
    pub channel_id: String,
}

/// Reacts to `ChannelCreated` by running one reconcile pass for the new
/// channel, as `ReconcileOnPlaylistCreated` does for playlists.
pub struct ReconcileOnChannelCreated<R> {
    pub channel_video_reconciler: R,
}

impl<R> ReconcileOnChannelCreated<R> {
    pub fn new(channel_video_reconciler: R) -> (s: Self)
        ensures
            s.channel_video_reconciler == channel_video_reconciler,
    {
        ReconcileOnChannelCreated { channel_video_reconciler }
    }

    /// The channel to reconcile: the one the event names, or none when that
    /// id is not a channel handle.
    pub fn channel_to_reconcile(&self, payload: ChannelCreatedPayload) -> (r: Option<ChannelHandle>)
        ensures
            r is Some <==> is_channel_handle(payload.channel_id@),
            r matches Some(id) ==> id@ == payload.channel_id@,
    {
        ChannelHandle::new(payload.channel_id)
    }
}

} // verus!
