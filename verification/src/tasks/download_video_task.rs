use crate::domain::shared::{quality_named, Quality};
use crate::domain::video::{is_video_record_id, VideoRecordId};
use vstd::prelude::*;

verus! {

/// One download to run: which video, at which quality, into which
/// directory, and whether this is the task's last attempt.
#[derive(Debug, Clone, PartialEq, Eq)]
pub struct DownloadRequest {
    pub video_id: VideoRecordId,
    pub quality: Quality,
    pub output_dir: String,
    pub is_last_attempt: bool,
}

/// Downloads one video, scheduled by `DownloadVideoOnVideoAddedToPlaylist`
/// and `DownloadVideoOnVideoAddedToChannel` whenever a new video shows up in
/// a tracked container.
pub struct DownloadVideoTask<D> {
    pub video_downloader: D,
}

impl<D> DownloadVideoTask<D> {
    pub fn new(video_downloader: D) -> (s: Self)
        ensures
            s.video_downloader == video_downloader,
    {
        DownloadVideoTask { video_downloader }
    }

    /// The download a task carrying `video_id`, `quality` and `output_dir`
    /// asks for; none when the id is not a video record id or the quality
    /// names no quality, and the task then succeeds doing nothing.
    pub fn download_request(
        &self,
        video_id: String,
        quality: &str,
        output_dir: String,
        is_last_attempt: bool,
    ) -> (r: Option<DownloadRequest>)
        ensures
            r is Some <==> is_video_record_id(video_id@) && quality_named(quality@) is Some,
            r matches Some(d) ==> {
                &&& d.video_id@ == video_id@
                &&& quality_named(quality@) == Some(d.quality)
                &&& d.output_dir == output_dir
                &&& d.is_last_attempt == is_last_attempt
            },
    {
        let video_id = match VideoRecordId::new(video_id) {
            Some(id) => id,
            None => return None,
        };
        let quality = match Quality::new(quality) {
            Some(q) => q,
            None => return None,
        };
        Some(DownloadRequest { video_id, quality, output_dir, is_last_attempt })
    }
}

} // verus!
