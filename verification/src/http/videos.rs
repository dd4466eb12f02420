use super::error::{
    ApiError, STATUS_BAD_REQUEST, STATUS_INTERNAL_SERVER_ERROR, STATUS_NO_CONTENT,
};
use super::validation::{
    lemma_accepted_fields_are_what_was_sent, opt_text, position_checked, required_position,
};
use crate::domain::shared::{
    blank, is_blank, lemma_quality_name_round_trip, quality_name, quality_named, Quality, Timestamp,
};
use crate::domain::video::{
    lemma_video_status_names, VideoStatus,
    list_videos_error_message, update_watch_state_error_message, video_status_name,
    ListVideosError, RecentVideo, UpdateWatchStateError, Video, VideoSource,
};
use vstd::prelude::*;

verus! {

/// How many recent videos a listing returns when the request names no
/// limit.
pub const DEFAULT_RECENT_VIDEOS_LIMIT: usize = 20;

/// The most recent videos a listing returns, whatever the request asks.
pub const MAX_RECENT_VIDEOS_LIMIT: usize = 100;

/// The query of a listing of recently downloaded videos.
#[derive(Debug, Clone, PartialEq, Eq)]
pub struct ListRecentVideosQuery {
    pub limit: Option<usize>,
}

/// How many recent videos a listing returns: the requested limit, or the
/// default when none is named, and never more than the maximum.
pub open spec fn recent_limit_of(requested: Option<usize>) -> usize {
    let wanted = match requested {
        Some(l) => l,
        None => DEFAULT_RECENT_VIDEOS_LIMIT,
    };
    if wanted < MAX_RECENT_VIDEOS_LIMIT {
        wanted
    } else {
        MAX_RECENT_VIDEOS_LIMIT
    }
}

/// The number of recent videos to list for `query`.
pub fn recent_videos_limit(query: &ListRecentVideosQuery) -> (r: usize)
    ensures
        r == recent_limit_of(query.limit),
{
    let wanted = match query.limit {
        Some(l) => l,
        None => DEFAULT_RECENT_VIDEOS_LIMIT,
    };
    if wanted < MAX_RECENT_VIDEOS_LIMIT {
        wanted
    } else {
        MAX_RECENT_VIDEOS_LIMIT
    }
}

/// A listing never returns more than the maximum, returns exactly what was
/// asked up to it, and the default when nothing was asked.
pub proof fn lemma_recent_limit_is_capped(requested: Option<usize>)
    ensures
        recent_limit_of(requested) <= MAX_RECENT_VIDEOS_LIMIT,
        requested is Some && requested->0 <= MAX_RECENT_VIDEOS_LIMIT ==> recent_limit_of(requested)
            == requested->0,
        requested is None ==> recent_limit_of(requested) == DEFAULT_RECENT_VIDEOS_LIMIT,
{
}

/// Where a recent video comes from, as answered.
#[derive(Debug, Clone, PartialEq, Eq)]
pub struct RecentVideoSourceResponse {
    pub kind: String,
    pub id: String,
    pub path: String,
    pub avatar_filename: Option<String>,
}

/// A recently downloaded video, as listed.
#[derive(Debug, Clone, PartialEq, Eq)]
pub struct RecentVideoResponse {
    pub id: String,
    pub title: String,
    pub thumbnail_filename: Option<String>,
    pub duration_seconds: Option<i64>,
    pub source: RecentVideoSourceResponse,
    /// Whether the video was marked watched.
    pub watched: bool,
}

/// `r` describes `source`: a playlist source as kind `playlist` with no
/// avatar, a channel source as kind `channel` with the channel's avatar.
pub open spec fn describes_source(r: RecentVideoSourceResponse, source: VideoSource) -> bool {
    match source {
        VideoSource::Playlist(id, path) => {
            &&& r.kind@ == "playlist"@
            &&& r.id@ == id@
            &&& r.path == path
            &&& r.avatar_filename is None
        },
        VideoSource::Channel(id, path, avatar_filename) => {
            &&& r.kind@ == "channel"@
            &&& r.id@ == id@
            &&& r.path == path
            &&& r.avatar_filename == avatar_filename
        },
    }
}

/// `r` lists `recent`: the video's YouTube id, title, thumbnail and
/// duration, and its source.
pub open spec fn lists_recent_video(r: RecentVideoResponse, recent: RecentVideo) -> bool {
    &&& r.id == recent.video.youtube_id
    &&& r.title == recent.video.title
    &&& r.thumbnail_filename == recent.video.thumbnail_filename
    &&& r.duration_seconds == recent.video.duration_seconds
    &&& describes_source(r.source, recent.source)
    &&& r.watched == recent.video.watched_at is Some
}

impl RecentVideoResponse {
    pub fn from(recent_video: RecentVideo) -> (r: Self)
        ensures
            lists_recent_video(r, recent_video),
    {
        let source = match recent_video.source {
            VideoSource::Playlist(id, path) => RecentVideoSourceResponse {
                kind: "playlist".to_string(),
                id: id.into_string(),
                path,
                avatar_filename: None,
            },
            VideoSource::Channel(id, path, avatar_filename) => RecentVideoSourceResponse {
                kind: "channel".to_string(),
                id: id.into_string(),
                path,
                avatar_filename,
            },
        };
        RecentVideoResponse {
            id: recent_video.video.youtube_id,
            title: recent_video.video.title,
            thumbnail_filename: recent_video.video.thumbnail_filename,
            duration_seconds: recent_video.video.duration_seconds,
            source,
            watched: recent_video.video.watched_at.is_some(),
        }
    }
}

/// The status a failed watch-state update is answered with: `400 Bad
/// Request` for an unknown video or channel, `500 Internal Server Error`
/// otherwise.
pub open spec fn update_watch_state_error_status(e: UpdateWatchStateError) -> u16 {
    match e {
        UpdateWatchStateError::Repository(_) => STATUS_INTERNAL_SERVER_ERROR,
        _ => STATUS_BAD_REQUEST,
    }
}

/// A failed watch-state update as answered: its status and message.
pub fn update_watch_state_error(error: UpdateWatchStateError) -> (e: ApiError)
    ensures
        e@ == (update_watch_state_error_status(error), update_watch_state_error_message(error)),
{
    let m = error.message();
    match error {
        UpdateWatchStateError::VideoNotFound(_) => ApiError::bad_request(m),
        UpdateWatchStateError::ChannelNotFound(_) => ApiError::bad_request(m),
        UpdateWatchStateError::Repository(_) => ApiError::internal(m),
    }
}

/// The status a failed video listing is answered with: `400 Bad Request`
/// for an unknown playlist or channel, `500 Internal Server Error`
/// otherwise.
pub open spec fn list_videos_error_status(e: ListVideosError) -> u16 {
    match e {
        ListVideosError::Repository(_) => STATUS_INTERNAL_SERVER_ERROR,
        _ => STATUS_BAD_REQUEST,
    }
}

/// A failed video listing as answered: its status and message.
pub fn list_videos_error(error: ListVideosError) -> (e: ApiError)
    ensures
        e@ == (list_videos_error_status(error), list_videos_error_message(error)),
{
    let m = error.message();
    match error {
        ListVideosError::PlaylistNotFound(_) => ApiError::bad_request(m),
        ListVideosError::ChannelNotFound(_) => ApiError::bad_request(m),
        ListVideosError::Repository(_) => ApiError::internal(m),
    }
}

/// The answer to a watch-state update (recorded progress, or a channel
/// marked watched): `204 No Content`, or the failure as
/// `update_watch_state_error` answers it.
pub fn watch_state_response(result: Result<(), UpdateWatchStateError>) -> (r: Result<u16, ApiError>)
    ensures
        match result {
            Ok(()) => r == Ok::<u16, ApiError>(STATUS_NO_CONTENT),
            Err(err) => r matches Err(e) && e@ == (
                update_watch_state_error_status(err),
                update_watch_state_error_message(err),
            ),
        },
{
    match result {
        Ok(()) => Ok(STATUS_NO_CONTENT),
        Err(e) => Err(update_watch_state_error(e)),
    }
}

/// The body of a request recording how far playback got.
#[derive(Debug, Clone, PartialEq, Eq)]
pub struct RecordProgressRequest {
    pub position_seconds: Option<i64>,
    pub duration_seconds: Option<i64>,
}

/// The message a blank YouTube video id is refused with.
pub open spec fn empty_video_id_message() -> Seq<char> {
    "YouTube video ID must not be empty"@
}

/// What a request recording playback progress of the video `youtube_id`
/// asks for (the video id, the position and the reported duration), or the
/// message of the first check it fails, checked in this order: the video id
/// (not blank), the position (present, not negative).
pub open spec fn record_progress_checked(youtube_id: Seq<char>, request: RecordProgressRequest) -> Result<
    (Seq<char>, i64, Option<i64>),
    Seq<char>,
> {
    if is_blank(youtube_id) {
        Err(empty_video_id_message())
    } else {
        match position_checked(request.position_seconds) {
            Err(m) => Err(m),
            Ok(p) => Ok((youtube_id, p, request.duration_seconds)),
        }
    }
}

/// Checks a request recording playback progress of the video `youtube_id`
/// before anything is stored: the video, the position it records and the
/// duration it reports, or `400 Bad Request` with the message of the first
/// check it fails.
pub fn validate_record_progress_request(youtube_id: String, request: RecordProgressRequest) -> (r:
    Result<(String, i64, Option<i64>), ApiError>)
    ensures
        match record_progress_checked(youtube_id@, request) {
            Ok((id, p, d)) => r matches Ok((v, position, duration)) && v@ == id && position == p
                && duration == d,
            Err(m) => r matches Err(e) && e@ == (STATUS_BAD_REQUEST, m),
        },
{
    if blank(youtube_id.as_str()) {
        return Err(ApiError::bad_request("YouTube video ID must not be empty".to_string()));
    }
    let position = required_position(request.position_seconds)?;
    Ok((youtube_id, position, request.duration_seconds))
}

/// A video of a playlist or channel, as listed.
#[derive(Debug, Clone, PartialEq, Eq)]
pub struct VideoResponse {
    pub id: String,
    pub title: String,
    pub status: String,
    pub quality: Option<String>,
    pub filename: Option<String>,
    pub thumbnail_filename: Option<String>,
    pub duration_seconds: Option<i64>,
    pub created_at: Timestamp,
    pub updated_at: Timestamp,
    /// Whether the video was marked watched.
    pub watched: bool,
    pub position_seconds: i64,
}

/// The name of a quality a video may carry.
pub open spec fn opt_quality_name(q: Option<Quality>) -> Option<Seq<char>> {
    match q {
        Some(q) => Some(quality_name(q)),
        None => None,
    }
}

/// `r` lists `video`: its fields, its status and quality written out, and
/// whether it was watched.
pub open spec fn lists_video(r: VideoResponse, video: Video) -> bool {
    &&& r.id == video.youtube_id
    &&& r.title == video.title
    &&& r.status@ == video_status_name(video.status)
    &&& opt_text(r.quality) == opt_quality_name(video.quality)
    &&& r.filename == video.filename
    &&& r.thumbnail_filename == video.thumbnail_filename
    &&& r.duration_seconds == video.duration_seconds
    &&& r.created_at == video.created_at
    &&& r.updated_at == video.updated_at
    &&& r.watched == video.watched_at is Some
    &&& r.position_seconds == video.position_seconds
}

impl VideoResponse {
    pub fn from(video: Video) -> (r: Self)
        ensures
            lists_video(r, video),
    {
        let quality = match video.quality {
            Some(q) => Some(q.as_str().to_string()),
            None => None,
        };
        VideoResponse {
            id: video.youtube_id,
            title: video.title,
            status: video.status.as_str().to_string(),
            quality,
            filename: video.filename,
            thumbnail_filename: video.thumbnail_filename,
            duration_seconds: video.duration_seconds,
            created_at: video.created_at,
            updated_at: video.updated_at,
            watched: video.watched_at.is_some(),
            position_seconds: video.position_seconds,
        }
    }
}

/// The answer to a listing of a playlist's or channel's videos: each of
/// them, in order, or the failure as `list_videos_error` answers it.
pub fn list_videos_response(result: Result<Vec<Video>, ListVideosError>) -> (r: Result<
    Vec<VideoResponse>,
    ApiError,
>)
    ensures
        match result {
            Ok(videos) => r matches Ok(items) && items.len() == videos.len() && forall|i: int|
                0 <= i < videos.len() ==> lists_video(#[trigger] items[i], videos[i]),
            Err(err) => r matches Err(e) && e@ == (
                list_videos_error_status(err),
                list_videos_error_message(err),
            ),
        },
{
    match result {
        Err(e) => Err(list_videos_error(e)),
        Ok(videos) => {
            let ghost listed = videos@;
            let mut items: Vec<VideoResponse> = Vec::new();
            for video in it: videos
                invariant
                    it.seq() == listed,
                    items.len() == it.index(),
                    forall|i: int| 0 <= i < items.len() ==> lists_video(#[trigger] items[i], listed[i]),
            {
                items.push(VideoResponse::from(video));
            }
            Ok(items)
        },
    }
}

/// The answer to a listing of recently downloaded videos: each of them, in
/// order, or the failure as `list_videos_error` answers it.
pub fn list_recent_videos_response(result: Result<Vec<RecentVideo>, ListVideosError>) -> (r:
    Result<Vec<RecentVideoResponse>, ApiError>)
    ensures
        match result {
            Ok(videos) => r matches Ok(items) && items.len() == videos.len() && forall|i: int|
                0 <= i < videos.len() ==> lists_recent_video(#[trigger] items[i], videos[i]),
            Err(err) => r matches Err(e) && e@ == (
                list_videos_error_status(err),
                list_videos_error_message(err),
            ),
        },
{
    match result {
        Err(e) => Err(list_videos_error(e)),
        Ok(videos) => {
            let ghost listed = videos@;
            let mut items: Vec<RecentVideoResponse> = Vec::new();
            for video in it: videos
                invariant
                    it.seq() == listed,
                    items.len() == it.index(),
                    forall|i: int|
                        0 <= i < items.len() ==> lists_recent_video(#[trigger] items[i], listed[i]),
            {
                items.push(RecentVideoResponse::from(video));
            }
            Ok(items)
        },
    }
}

/// An accepted progress request hands on exactly what it reported: the
/// video it names, the position it records and the duration it reports;
/// and whether it is accepted does not depend on the reported duration.
pub proof fn lemma_accepted_progress_keeps_what_was_reported(
    youtube_id: Seq<char>,
    request: RecordProgressRequest,
    other_duration: Option<i64>,
)
    ensures
        record_progress_checked(youtube_id, request) matches Ok((id, p, d)) ==> {
            &&& id == youtube_id
            &&& !is_blank(id)
            &&& request.position_seconds == Some(p)
            &&& p >= 0
            &&& d == request.duration_seconds
        },
        record_progress_checked(youtube_id, request) is Ok <==> record_progress_checked(
            youtube_id,
            RecordProgressRequest { duration_seconds: other_duration, ..request },
        ) is Ok,
{
    lemma_accepted_fields_are_what_was_sent(None, request.position_seconds);
}

/// A listed video carries the video's own details: its quality written so
/// that it reads back as that quality, its status by a name no other status
/// has, whether it was watched, and how far playback got.
pub proof fn lemma_listed_video_describes_the_video(r: VideoResponse, video: Video, other: VideoStatus)
    requires
        lists_video(r, video),
    ensures
        match video.quality {
            Some(q) => r.quality is Some && quality_named(r.quality->0@) == Some(q),
            None => r.quality is None,
        },
        r.status@ == video_status_name(other) ==> other == video.status,
        r.watched <==> video.watched_at is Some,
        r.position_seconds == video.position_seconds,
{
    lemma_video_status_names(video.status, other);
    if let Some(q) = video.quality {
        lemma_quality_name_round_trip(q);
    }
}

/// The quality of a listed video names the video's own quality back.
pub proof fn lemma_listed_quality_reads_back(q: Option<Quality>, s: Seq<char>)
    ensures
        opt_quality_name(q) == Some(s) ==> q is Some && quality_named(s) == q,
        opt_quality_name(q) is None <==> q is None,
{
    if let Some(x) = q {
        lemma_quality_name_round_trip(x);
    }
}

/// A listed recent video says whether it was watched.
pub proof fn lemma_recent_video_says_whether_watched(r: RecentVideoResponse, recent: RecentVideo)
    requires
        lists_recent_video(r, recent),
    ensures
        r.watched <==> recent.video.watched_at is Some,
        r.id == recent.video.youtube_id,
{
}

/// A recent video's source is answered as kind `playlist` exactly when it
/// comes from a playlist, as kind `channel` exactly when it comes from a
/// channel, and only a channel source carries an avatar.
pub proof fn lemma_source_kind_tells_playlists_from_channels(
    r: RecentVideoSourceResponse,
    source: VideoSource,
)
    requires
        describes_source(r, source),
    ensures
        r.kind@ == "playlist"@ <==> source is Playlist,
        r.kind@ == "channel"@ <==> source is Channel,
        source is Playlist ==> r.avatar_filename is None,
{
    reveal_strlit("playlist");
    reveal_strlit("channel");
    assert("playlist"@ != "channel"@) by {
        assert("playlist"@.len() != "channel"@.len());
    }
}

} // verus!
