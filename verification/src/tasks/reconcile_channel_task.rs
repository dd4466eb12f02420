use crate::domain::channel::{is_channel_handle, ChannelHandle};
use vstd::prelude::*;

verus! {

/// Runs every later reconcile of a channel (the first one is run by
/// `ReconcileOnChannelCreated` instead).
pub struct ReconcileChannelTask<R> {
    pub channel_video_reconciler: R,
}

impl<R> ReconcileChannelTask<R> {
    pub fn new(channel_video_reconciler: R) -> (s: Self)
        ensures
            s.channel_video_reconciler == channel_video_reconciler,
    {
        ReconcileChannelTask { channel_video_reconciler }
    }

    /// The channel to reconcile for a task carrying `channel_id`; none when
    /// that id is not a channel handle, and the task then succeeds doing
    /// nothing.
    pub fn channel_to_reconcile(&self, channel_id: String) -> (r: Option<ChannelHandle>)
        ensures
            r is Some <==> is_channel_handle(channel_id@),
            r matches Some(id) ==> id@ == channel_id@,
    {
        ChannelHandle::new(channel_id)
    }
}

} // verus!
