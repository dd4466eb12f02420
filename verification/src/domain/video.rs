use super::channel::ChannelHandle;
use super::playlist::PlaylistId;
use super::shared::{blank, is_blank, Quality, Timestamp};
use crate::text::concat3;
use vstd::prelude::*;

verus! {

/// Whether `s` is a video record id: it is not blank.
pub open spec fn is_video_record_id(s: Seq<char>) -> bool {
    !is_blank(s)
}

/// The id a stored video record is addressed by.
#[derive(Debug, PartialEq, Eq)]
pub struct VideoRecordId {
    value: String,
}

impl View for VideoRecordId {
    type V = Seq<char>;

    closed spec fn view(&self) -> Seq<char> {
        self.value@
    }
}

impl Clone for VideoRecordId {
    fn clone(&self) -> (r: Self)
        ensures
            r == *self,
    {
        proof {
            use_type_invariant(self);
        }
        VideoRecordId { value: self.value.clone() }
    }
}

impl VideoRecordId {
    /// Every VideoRecordId holds a valid value.
    #[verifier::type_invariant]
    spec fn well_formed(self) -> bool {
        is_video_record_id(self.value@)
    }

    /// The id `value`, or `None` when it is empty or whitespace only.
    pub fn new(value: String) -> (r: Option<VideoRecordId>)
        ensures
            r is Some <==> is_video_record_id(value@),
            r matches Some(id) ==> id@ == value@,
    {
        if blank(value.as_str()) {
            None
        } else {
            Some(VideoRecordId { value })
        }
    }

    pub fn as_str(&self) -> (r: &str)
        ensures
            r@ == self@,
            is_video_record_id(r@),
    {
        proof {
            use_type_invariant(self);
        }
        self.value.as_str()
    }
}

/// Where a video stands in its download.
#[derive(Debug, Clone, Copy, PartialEq, Eq)]
pub enum VideoStatus {
    Pending,
    Downloading,
    Downloaded,
    Errored,
}

/// The name a video status is answered with.
pub open spec fn video_status_name(s: VideoStatus) -> Seq<char> {
    match s {
        VideoStatus::Pending => "PENDING"@,
        VideoStatus::Downloading => "DOWNLOADING"@,
        VideoStatus::Downloaded => "DOWNLOADED"@,
        VideoStatus::Errored => "ERRORED"@,
    }
}

impl VideoStatus {
    pub fn as_str(&self) -> (r: &'static str)
        ensures
            r@ == video_status_name(*self),
    {
        match self {
            VideoStatus::Pending => "PENDING",
            VideoStatus::Downloading => "DOWNLOADING",
            VideoStatus::Downloaded => "DOWNLOADED",
            VideoStatus::Errored => "ERRORED",
        }
    }
}

/// A stored video, with its download details and its watch state.
#[derive(Debug, Clone, PartialEq, Eq)]
pub struct Video {
    pub youtube_id: String,
    pub title: String,
    pub status: VideoStatus,
    pub quality: Option<Quality>,
    pub filename: Option<String>,
    pub thumbnail_filename: Option<String>,
    pub duration_seconds: Option<i64>,
    pub created_at: Timestamp,
    pub updated_at: Timestamp,
    /// When the video was last marked watched; none while it is unwatched.
    pub watched_at: Option<Timestamp>,
    /// How far into the video playback got, in seconds.
    pub position_seconds: i64,
}

/// Where a recently downloaded video comes from: a playlist (its id and
/// path) or a channel (its handle, path and avatar).
#[derive(Debug, Clone, PartialEq, Eq)]
pub enum VideoSource {
    Playlist(PlaylistId, String),
    Channel(ChannelHandle, String, Option<String>),
}

/// A recently downloaded video, with its source.
#[derive(Debug, Clone, PartialEq, Eq)]
pub struct RecentVideo {
    pub video: Video,
    pub source: VideoSource,
}

/// Why recording a watch state failed: an unknown video (its YouTube id), an
/// unknown channel (its handle), or a failed repository (its message).
#[derive(Debug, Clone, PartialEq, Eq)]
pub enum UpdateWatchStateError {
    VideoNotFound(String),
    ChannelNotFound(String),
    Repository(String),
}

/// Why listing videos failed: an unknown playlist (its id), an unknown
/// channel (its handle), or a failed repository (its message).
#[derive(Debug, Clone, PartialEq, Eq)]
pub enum ListVideosError {
    PlaylistNotFound(String),
    ChannelNotFound(String),
    Repository(String),
}

/// What a failed watch-state update says: that no video of the YouTube id or
/// no channel of the handle is known, or the message of the failed
/// repository.
pub open spec fn update_watch_state_error_message(e: UpdateWatchStateError) -> Seq<char> {
    match e {
        UpdateWatchStateError::VideoNotFound(id) => "video "@ + id@ + " not found"@,
        UpdateWatchStateError::ChannelNotFound(h) => "channel "@ + h@ + " not found"@,
        UpdateWatchStateError::Repository(m) => m@,
    }
}

impl UpdateWatchStateError {
    pub fn message(&self) -> (r: String)
        ensures
            r@ == update_watch_state_error_message(*self),
    {
        match self {
            UpdateWatchStateError::VideoNotFound(id) => concat3("video ", id.as_str(), " not found"),
            UpdateWatchStateError::ChannelNotFound(h) => concat3("channel ", h.as_str(), " not found"),
            UpdateWatchStateError::Repository(m) => m.clone(),
        }
    }
}

/// What a failed video listing says: that no playlist of the id or no
/// channel of the handle is tracked, or the message of the failed
/// repository.
pub open spec fn list_videos_error_message(e: ListVideosError) -> Seq<char> {
    match e {
        ListVideosError::PlaylistNotFound(id) => "playlist "@ + id@ + " not found"@,
        ListVideosError::ChannelNotFound(h) => "channel "@ + h@ + " not found"@,
        ListVideosError::Repository(m) => m@,
    }
}

impl ListVideosError {
    pub fn message(&self) -> (r: String)
        ensures
            r@ == list_videos_error_message(*self),
    {
        match self {
            ListVideosError::PlaylistNotFound(id) => concat3("playlist ", id.as_str(), " not found"),
            ListVideosError::ChannelNotFound(h) => concat3("channel ", h.as_str(), " not found"),
            ListVideosError::Repository(m) => m.clone(),
        }
    }
}

/// Each video status is answered with its own upper-case name, and no two
/// statuses share a name.
pub proof fn lemma_video_status_names(a: VideoStatus, b: VideoStatus)
    ensures
        video_status_name(VideoStatus::Pending) == "PENDING"@,
        video_status_name(VideoStatus::Downloading) == "DOWNLOADING"@,
        video_status_name(VideoStatus::Downloaded) == "DOWNLOADED"@,
        video_status_name(VideoStatus::Errored) == "ERRORED"@,
        video_status_name(a) == video_status_name(b) ==> a == b,
{
    reveal_strlit("PENDING");
    reveal_strlit("DOWNLOADING");
    reveal_strlit("DOWNLOADED");
    reveal_strlit("ERRORED");
    if video_status_name(a) == video_status_name(b) && a != b {
        let (x, y) = (video_status_name(a), video_status_name(b));
        assert(x.len() == y.len());
        assert(x[0] == y[0]);
    }
}

} // verus!
