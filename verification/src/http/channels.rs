use super::error::{
    ApiError, STATUS_BAD_GATEWAY, STATUS_BAD_REQUEST, STATUS_CREATED, STATUS_INTERNAL_SERVER_ERROR,
    STATUS_NO_CONTENT, STATUS_OK,
};
use super::validation::{
    lemma_accepted_fields_are_what_was_sent, opt_text, quality_checked, required, required_quality,
};
use crate::domain::channel::{
    channel_from_url_or_handle, handle_named_by, is_channel_handle, create_channel_error_message, delete_channel_error_message,
    Channel, ChannelHandle, ChannelView, CreateChannelError, CreateChannelOutcome,
    DeleteChannelError,
};
use crate::domain::playlist::{check_output_path, output_path_checked};
use crate::domain::shared::{
    lemma_quality_name_round_trip, quality_name, quality_named, Quality, Timestamp,
};
use crate::text::{concat3, decimal, decimal_of};
use vstd::prelude::*;

verus! {

/// The message a request to track a channel is rejected with when it names
/// no video limit.
pub const MISSING_VIDEO_LIMIT: &'static str = "Video limit must be a positive integer (missing)";

/// The message a request to track a channel is rejected with when it names
/// no path.
pub const MISSING_PATH: &'static str = "Channel path must not be empty";

/// The body of a request to track a channel. Every field may be missing;
/// the handler rejects what it cannot accept.
#[derive(Debug, Clone, PartialEq, Eq)]
pub struct CreateChannelRequest {
    pub channel: Option<String>,
    pub quality: Option<String>,
    pub video_limit: Option<i64>,
    pub path: Option<String>,
}

/// A tracked channel, as answered to the request that created it.
#[derive(Debug, Clone, PartialEq, Eq)]
pub struct ChannelResponse {
    pub id: String,
    pub name: String,
    pub youtube_channel_id: String,
    pub quality: String,
    pub video_limit: u32,
    pub path: String,
    pub avatar_filename: Option<String>,
    pub created_at: Timestamp,
}

/// `r` answers with `channel`: its fields, its handle and quality written
/// out.
pub open spec fn describes_channel(r: ChannelResponse, channel: Channel) -> bool {
    &&& r.id@ == channel.id@
    &&& r.name == channel.name
    &&& r.youtube_channel_id == channel.youtube_channel_id
    &&& r.quality@ == quality_name(channel.quality)
    &&& r.video_limit == channel.video_limit
    &&& r.path == channel.path
    &&& r.avatar_filename == channel.avatar_filename
    &&& r.created_at == channel.created_at
}

impl ChannelResponse {
    pub fn from(channel: Channel) -> (r: Self)
        ensures
            describes_channel(r, channel),
    {
        ChannelResponse {
            id: channel.id.into_string(),
            name: channel.name,
            youtube_channel_id: channel.youtube_channel_id,
            quality: channel.quality.as_str().to_string(),
            video_limit: channel.video_limit,
            path: channel.path,
            avatar_filename: channel.avatar_filename,
            created_at: channel.created_at,
        }
    }
}

/// A tracked channel, as listed.
#[derive(Debug, Clone, PartialEq, Eq)]
pub struct ChannelListItemResponse {
    pub id: String,
    pub name: String,
    pub path: String,
    pub avatar_filename: Option<String>,
    pub unwatched_count: usize,
}

/// `r` lists `channel`: its fields, its handle written out.
pub open spec fn lists_channel(r: ChannelListItemResponse, channel: ChannelView) -> bool {
    &&& r.id@ == channel.id@
    &&& r.name == channel.name
    &&& r.path == channel.path
    &&& r.avatar_filename == channel.avatar_filename
    &&& r.unwatched_count == channel.unwatched_count
}

impl ChannelListItemResponse {
    pub fn from(channel: ChannelView) -> (r: Self)
        ensures
            lists_channel(r, channel),
    {
        ChannelListItemResponse {
            id: channel.id.into_string(),
            name: channel.name,
            path: channel.path,
            avatar_filename: channel.avatar_filename,
            unwatched_count: channel.unwatched_count,
        }
    }
}

/// The status a failed channel creation is answered with: `400 Bad Request`
/// when YouTube knows no such channel, `502 Bad Gateway` when the YouTube
/// lookup failed, `500 Internal Server Error` when storing failed.
pub open spec fn create_channel_error_status(e: CreateChannelError) -> u16 {
    match e {
        CreateChannelError::YoutubeChannelNotFound(_) => STATUS_BAD_REQUEST,
        CreateChannelError::Lookup(_) => STATUS_BAD_GATEWAY,
        CreateChannelError::Repository(_) => STATUS_INTERNAL_SERVER_ERROR,
    }
}

/// The answer to a request to track a channel: `201 Created` with the new
/// channel, `200 OK` with the channel when it was tracked already, or the
/// failure with its status and message.
pub fn create_channel_response(outcome: Result<CreateChannelOutcome, CreateChannelError>) -> (r:
    Result<(u16, ChannelResponse), ApiError>)
    ensures
        match outcome {
            Ok(CreateChannelOutcome::Created(c)) => r matches Ok((s, resp)) && s == STATUS_CREATED
                && describes_channel(resp, c),
            Ok(CreateChannelOutcome::AlreadyExisted(c)) => r matches Ok((s, resp)) && s
                == STATUS_OK && describes_channel(resp, c),
            Err(err) => r matches Err(e) && e@ == (
                create_channel_error_status(err),
                create_channel_error_message(err),
            ),
        },
{
    match outcome {
        Ok(CreateChannelOutcome::Created(c)) => Ok((STATUS_CREATED, ChannelResponse::from(c))),
        Ok(CreateChannelOutcome::AlreadyExisted(c)) => Ok((STATUS_OK, ChannelResponse::from(c))),
        Err(err) => {
            let m = err.message();
            match err {
                CreateChannelError::YoutubeChannelNotFound(_) => Err(ApiError::bad_request(m)),
                CreateChannelError::Lookup(_) => Err(ApiError::new(STATUS_BAD_GATEWAY, m)),
                CreateChannelError::Repository(_) => Err(ApiError::internal(m)),
            }
        },
    }
}

/// The answer to a request to stop tracking a channel: `204 No Content`
/// once deleted, `400 Bad Request` for a channel not tracked, `500 Internal
/// Server Error` when deleting failed; each failure with its message.
pub fn delete_channel_response(result: Result<(), DeleteChannelError>) -> (r: Result<u16, ApiError>)
    ensures
        match result {
            Ok(()) => r == Ok::<u16, ApiError>(STATUS_NO_CONTENT),
            Err(err) => r matches Err(e) && e@ == (
                if err is NotFound {
                    STATUS_BAD_REQUEST
                } else {
                    STATUS_INTERNAL_SERVER_ERROR
                },
                delete_channel_error_message(err),
            ),
        },
{
    match result {
        Ok(()) => Ok(STATUS_NO_CONTENT),
        Err(err) => {
            let m = err.message();
            match err {
                DeleteChannelError::NotFound(_) => Err(ApiError::bad_request(m)),
                DeleteChannelError::Repository(_) => Err(ApiError::internal(m)),
            }
        },
    }
}

/// What a request to track a channel asks for, once checked.
#[derive(Debug, Clone, PartialEq, Eq)]
pub struct CreateChannel {
    pub id: ChannelHandle,
    pub quality: Quality,
    pub video_limit: u32,
    pub path: String,
}

/// The message a video limit that is not a positive integer is rejected
/// with.
pub open spec fn invalid_video_limit_message(limit: int) -> Seq<char> {
    "Video limit must be a positive integer (got "@ + decimal_of(limit) + ")"@
}

/// What a request to track a channel asks for (the handle, quality, video
/// limit and path), or the message of the first check it fails, checked in
/// this order: the channel handle or URL (an absent one counts as empty),
/// the quality, the video limit (present, positive, within `u32`), the
/// path (present, and a valid output path).
pub open spec fn create_channel_checked(request: CreateChannelRequest) -> Result<
    (Seq<char>, Quality, u32, Seq<char>),
    Seq<char>,
> {
    let channel = match request.channel {
        Some(c) => c@,
        None => Seq::empty(),
    };
    match channel_from_url_or_handle(channel) {
        Err(m) => Err(m),
        Ok(handle) => match quality_checked(opt_text(request.quality)) {
            Err(m) => Err(m),
            Ok(quality) => match request.video_limit {
                None => Err(MISSING_VIDEO_LIMIT@),
                Some(n) => if n < 1 || n > u32::MAX {
                    Err(invalid_video_limit_message(n as int))
                } else {
                    match request.path {
                        None => Err(MISSING_PATH@),
                        Some(p) => match output_path_checked(p@) {
                            Err(m) => Err(m),
                            Ok(path) => Ok((handle, quality, n as u32, path)),
                        },
                    }
                },
            },
        },
    }
}

/// Checks a request to track a channel before anything is looked up: what
/// it asks for, or `400 Bad Request` with the message of the first check it
/// fails.
pub fn validate_create_channel_request(request: CreateChannelRequest) -> (r: Result<
    CreateChannel,
    ApiError,
>)
    ensures
        match create_channel_checked(request) {
            Ok((handle, quality, video_limit, path)) => r matches Ok(c) && c.id@ == handle
                && c.quality == quality && c.video_limit == video_limit && c.path@ == path,
            Err(m) => r matches Err(e) && e@ == (STATUS_BAD_REQUEST, m),
        },
{
    let channel = match request.channel {
        Some(c) => c,
        None => String::new(),
    };
    let id = match ChannelHandle::from_url_or_handle(channel) {
        Ok(id) => id,
        Err(m) => return Err(ApiError::bad_request(m)),
    };
    let quality = required_quality(request.quality)?;
    let n = required(request.video_limit, MISSING_VIDEO_LIMIT)?;
    if n < 1 || n > 4294967295 {
        return Err(
            ApiError::bad_request(
                concat3(
                    "Video limit must be a positive integer (got ",
                    decimal(n).as_str(),
                    ")",
                ),
            ),
        );
    }
    let path = match check_output_path(required(request.path, MISSING_PATH)?) {
        Ok(path) => path,
        Err(m) => return Err(ApiError::bad_request(m)),
    };
    Ok(CreateChannel { id, quality, video_limit: n as u32, path })
}

/// The answer to a listing of the tracked channels: each of them, in order,
/// or `500 Internal Server Error` with the message of the failed search.
pub fn list_channels_response(result: Result<Vec<ChannelView>, String>) -> (r: Result<
    Vec<ChannelListItemResponse>,
    ApiError,
>)
    ensures
        match result {
            Ok(channels) => r matches Ok(items) && items.len() == channels.len() && forall|i: int|
                0 <= i < channels.len() ==> lists_channel(#[trigger] items[i], channels[i]),
            Err(m) => r matches Err(e) && e@ == (STATUS_INTERNAL_SERVER_ERROR, m@),
        },
{
    match result {
        Err(m) => Err(ApiError::internal(m)),
        Ok(channels) => {
            let ghost listed = channels@;
            let mut items: Vec<ChannelListItemResponse> = Vec::new();
            for channel in it: channels
                invariant
                    it.seq() == listed,
                    items.len() == it.index(),
                    forall|i: int|
                        0 <= i < items.len() ==> lists_channel(#[trigger] items[i], listed[i]),
            {
                items.push(ChannelListItemResponse::from(channel));
            }
            Ok(items)
        },
    }
}

/// An accepted request to track a channel asks for exactly what it sent:
/// the handle its channel field names (a handle, starting with `@`), the
/// quality its quality field names, its video limit (positive), and its
/// path.
pub proof fn lemma_accepted_channel_request_carries_its_fields(request: CreateChannelRequest)
    ensures
        create_channel_checked(request) matches Ok((h, q, n, p)) ==> {
            &&& request.channel is Some
            &&& h == handle_named_by(request.channel->0@)
            &&& is_channel_handle(h)
            &&& request.quality is Some
            &&& quality_named(request.quality->0@) == Some(q)
            &&& request.video_limit == Some(n as i64)
            &&& n >= 1
            &&& request.path is Some
            &&& p == request.path->0@
        },
{
    lemma_accepted_fields_are_what_was_sent(opt_text(request.quality), None);
}

/// A tracked channel is answered with its own quality: the written quality
/// reads back as the channel's.
pub proof fn lemma_channel_response_quality_reads_back(r: ChannelResponse, channel: Channel)
    requires
        describes_channel(r, channel),
    ensures
        quality_named(r.quality@) == Some(channel.quality),
        r.id@ == channel.id@,
        r.video_limit == channel.video_limit,
{
    lemma_quality_name_round_trip(channel.quality);
}

} // verus!
