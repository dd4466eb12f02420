pub mod channels;
pub mod directories;
pub mod error;
pub mod playlists;
pub mod tasks;
pub mod validation;
pub mod videos;

use error::{ApiError, STATUS_INTERNAL_SERVER_ERROR, STATUS_NO_CONTENT};
use vstd::prelude::*;

verus! {

/// The absolute configured videos root, carried by the HTTP layer so that
/// no domain type has to know a filesystem location. Reported on every
/// directory listing.
#[derive(Debug, Clone, PartialEq, Eq)]
pub struct VideosRoot(pub String);

/// The services the HTTP handlers call, one per use case, and the videos
/// root.
pub struct ApiServices<PC, PD, PS, PVR, VS, TVS, CC, CD, CS, CVR, DS> {
    pub playlist_creator: PC,
    pub playlist_deleter: PD,
    pub playlist_searcher: PS,
    pub playlist_video_reconciler: PVR,
    pub video_searcher: VS,
    pub task_view_searcher: TVS,
    pub channel_creator: CC,
    pub channel_deleter: CD,
    pub channel_searcher: CS,
    pub channel_video_reconciler: CVR,
    pub directory_searcher: DS,
    pub videos_root: VideosRoot,
}

/// The answer to a forced reconcile of a playlist or channel: `204 No
/// Content`, or `500 Internal Server Error` with the message of the failed
/// reconcile.
pub fn reconcile_response(result: Result<(), String>) -> (r: Result<u16, ApiError>)
    ensures
        match result {
            Ok(()) => r == Ok::<u16, ApiError>(STATUS_NO_CONTENT),
            Err(m) => r matches Err(e) && e@ == (STATUS_INTERNAL_SERVER_ERROR, m@),
        },
{
    match result {
        Ok(()) => Ok(STATUS_NO_CONTENT),
        Err(m) => Err(ApiError::internal(m)),
    }
}

} // verus!
