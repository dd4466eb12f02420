use yarrtube::domain::channel::{
    Channel, ChannelHandle, ChannelView, CreateChannelError, CreateChannelOutcome,
    DeleteChannelError,
};
use yarrtube::domain::directory::{Directory, ListDirectoriesError};
use yarrtube::domain::playlist::{
    CreatePlaylistError, CreatePlaylistOutcome, DeletePlaylistError, Playlist, PlaylistId,
    PlaylistKind,
};
use yarrtube::domain::task_view::{TaskStatus, TaskView};
use yarrtube::domain::shared::{Quality, Timestamp};
use yarrtube::domain::video::{
    ListVideosError, RecentVideo, UpdateWatchStateError, Video, VideoSource, VideoStatus,
};
use yarrtube::http::channels::{
    create_channel_response, delete_channel_response, list_channels_response,
    validate_create_channel_request, ChannelListItemResponse, ChannelResponse, CreateChannelRequest,
};
use yarrtube::http::directories::{
    directory_to_list, list_directories_response, DirectoryEntryResponse, DirectoryResponse,
    ListDirectoriesQuery,
};
use yarrtube::http::error::{
    ApiError, STATUS_BAD_GATEWAY, STATUS_BAD_REQUEST, STATUS_CREATED, STATUS_INTERNAL_SERVER_ERROR,
    STATUS_NOT_FOUND, STATUS_NO_CONTENT, STATUS_OK,
};
use yarrtube::http::channels::{MISSING_PATH, MISSING_VIDEO_LIMIT};
use yarrtube::http::playlists::{
    create_playlist_response, delete_playlist_response, list_playlists_response,
    validate_create_playlist_request, CreatePlaylistRequest, PlaylistResponse,
};
use yarrtube::http::tasks::{list_tasks_response, TaskResponse};
use yarrtube::http::reconcile_response;
use yarrtube::http::validation::{required, MISSING_POSITION, MISSING_QUALITY};
use yarrtube::http::videos::{
    list_recent_videos_response, list_videos_error, list_videos_response, recent_videos_limit,
    update_watch_state_error, validate_record_progress_request, watch_state_response,
    ListRecentVideosQuery, RecentVideoResponse, RecentVideoSourceResponse, RecordProgressRequest,
    VideoResponse,
};

const VIDEOS_ROOT: &str = "/videos";

fn fixed_timestamp() -> Timestamp {
    Timestamp { secs: 1_700_000_000, nanos: 0 }
}

fn handle(value: &str) -> ChannelHandle {
    ChannelHandle::new(value.to_string()).unwrap()
}

fn channel(channel_handle: &str) -> Channel {
    Channel {
        id: handle(channel_handle),
        name: "Some Channel".to_string(),
        youtube_channel_id: "UC123".to_string(),
        quality: Quality::High,
        video_limit: 10,
        path: "creators/somechannel".to_string(),
        avatar_filename: None,
        created_at: fixed_timestamp(),
    }
}

fn some_channel_response() -> ChannelResponse {
    ChannelResponse {
        id: "@somechannel".to_string(),
        name: "Some Channel".to_string(),
        youtube_channel_id: "UC123".to_string(),
        quality: "high".to_string(),
        video_limit: 10,
        path: "creators/somechannel".to_string(),
        avatar_filename: None,
        created_at: fixed_timestamp(),
    }
}

fn playlist(id: &str) -> Playlist {
    Playlist {
        id: PlaylistId::new(id.to_string()).unwrap(),
        name: "My Playlist".to_string(),
        path: "music/chill".to_string(),
        quality: Quality::High,
        kind: PlaylistKind::YoutubeLinked,
        created_at: fixed_timestamp(),
    }
}

fn playlist_response(id: &str) -> PlaylistResponse {
    PlaylistResponse {
        id: id.to_string(),
        name: "My Playlist".to_string(),
        path: "music/chill".to_string(),
        quality: "high".to_string(),
        kind: "youtube_linked".to_string(),
        created_at: fixed_timestamp(),
    }
}

fn create_channel_request(channel: &str) -> CreateChannelRequest {
    CreateChannelRequest {
        channel: Some(channel.to_string()),
        quality: Some("high".to_string()),
        video_limit: Some(10),
        path: Some("creators/somechannel".to_string()),
    }
}

fn create_playlist_request(playlist: &str) -> CreatePlaylistRequest {
    CreatePlaylistRequest {
        playlist: playlist.to_string(),
        name: "My Playlist".to_string(),
        path: Some("music/chill".to_string()),
        quality: Some("high".to_string()),
    }
}

fn directory(path: &str, entries: &[&str]) -> Directory {
    Directory {
        path: path.to_string(),
        subdirectories: entries.iter().map(|name| name.to_string()).collect(),
    }
}

fn directory_response(path: &str, entries: &[&str]) -> DirectoryResponse {
    DirectoryResponse {
        root: VIDEOS_ROOT.to_string(),
        path: path.to_string(),
        entries: entries
            .iter()
            .map(|name| DirectoryEntryResponse { name: name.to_string() })
            .collect(),
    }
}

#[test]
fn it_should_create_a_channel() {
    let response = create_channel_response(Ok(CreateChannelOutcome::Created(channel("@somechannel"))));

    assert_eq!(response, Ok((STATUS_CREATED, some_channel_response())));
}

#[test]
fn it_should_return_the_existing_channel_if_already_created() {
    let response =
        create_channel_response(Ok(CreateChannelOutcome::AlreadyExisted(channel("@somechannel"))));

    assert_eq!(response, Ok((STATUS_OK, some_channel_response())));
}

#[test]
fn mod_it_should_fail_to_create_if_quality_missing() {
    let response: Result<String, ApiError> = required(None, MISSING_QUALITY);

    assert_eq!(
        response,
        Err(ApiError::bad_request(
            "Quality must be one of \"high\", \"mid\", or \"low\" (missing)".to_string()
        ))
    );
}

#[test]
fn it_should_accept_a_field_that_is_present() {
    assert_eq!(required(Some(7i64), MISSING_QUALITY), Ok(7));
}

#[test]
fn it_should_fail_to_create_if_channel_not_found_on_youtube() {
    let response = create_channel_response(Err(CreateChannelError::YoutubeChannelNotFound(
        "@missing".to_string(),
    )));

    assert_eq!(
        response,
        Err(ApiError::bad_request(
            "YouTube channel @missing does not exist or is not accessible".to_string()
        ))
    );
}

#[test]
fn mod_it_should_fail_to_create_if_youtube_lookup_fails() {
    let response =
        create_channel_response(Err(CreateChannelError::Lookup("YouTube API request failed".to_string())));

    assert_eq!(
        response,
        Err(ApiError::new(STATUS_BAD_GATEWAY, "YouTube API request failed".to_string()))
    );
}

#[test]
fn it_should_report_a_failure_to_store_a_channel_as_internal() {
    let response =
        create_channel_response(Err(CreateChannelError::Repository("disk full".to_string())));

    assert_eq!(response, Err(ApiError::internal("disk full".to_string())));
    assert_eq!(ApiError::internal("disk full".to_string()).status(), STATUS_INTERNAL_SERVER_ERROR);
}

#[test]
fn it_should_delete_a_channel() {
    assert_eq!(delete_channel_response(Ok(())), Ok(STATUS_NO_CONTENT));
}

#[test]
fn it_should_fail_to_delete_a_missing_channel() {
    let response =
        delete_channel_response(Err(DeleteChannelError::NotFound("@missing".to_string())));

    assert_eq!(
        response,
        Err(ApiError::bad_request("channel @missing not found".to_string()))
    );
}

#[test]
fn it_should_list_no_channels() {
    assert_eq!(list_channels_response(Ok(vec![])), Ok(vec![]));
}

#[test]
fn it_should_list_all_channels() {
    let view = ChannelView {
        id: handle("@somechannel"),
        name: "Some Channel".to_string(),
        path: "creators/somechannel".to_string(),
        avatar_filename: None,
        unwatched_count: 0,
    };

    assert_eq!(
        list_channels_response(Ok(vec![view])),
        Ok(vec![ChannelListItemResponse {
            id: "@somechannel".to_string(),
            name: "Some Channel".to_string(),
            path: "creators/somechannel".to_string(),
            avatar_filename: None,
            unwatched_count: 0,
        }])
    );
}

#[test]
fn it_should_report_a_failed_channel_search_as_internal() {
    assert_eq!(
        list_channels_response(Err("database is locked".to_string())),
        Err(ApiError::internal("database is locked".to_string()))
    );
}

#[test]
fn it_should_answer_a_reconcile_with_no_content() {
    assert_eq!(reconcile_response(Ok(())), Ok(STATUS_NO_CONTENT));
    assert_eq!(
        reconcile_response(Err("yt-dlp failed".to_string())),
        Err(ApiError::internal("yt-dlp failed".to_string()))
    );
}

#[test]
fn it_should_fail_to_mark_watched_a_missing_channel() {
    assert_eq!(
        watch_state_response(Err(UpdateWatchStateError::ChannelNotFound("@missing".to_string()))),
        Err(ApiError::bad_request("channel @missing not found".to_string()))
    );
}

#[test]
fn it_should_list_root_subdirectories_by_default() {
    let response = list_directories_response(VIDEOS_ROOT, Ok(directory("", &["channels", "playlists"])));

    assert_eq!(response, Ok(directory_response("", &["channels", "playlists"])));
}

#[test]
fn it_should_list_nested_subdirectories() {
    let response = list_directories_response(VIDEOS_ROOT, Ok(directory("playlists", &["music"])));

    assert_eq!(response, Ok(directory_response("playlists", &["music"])));
}

#[test]
fn it_should_list_no_entries_for_a_leaf_directory() {
    let response = DirectoryResponse::new(VIDEOS_ROOT, directory("channels", &[]));

    assert_eq!(response, directory_response("channels", &[]));
}

#[test]
fn it_should_fail_if_path_not_found() {
    let response = list_directories_response(
        VIDEOS_ROOT,
        Err(ListDirectoriesError::NotFound("does-not-exist".to_string())),
    );

    assert_eq!(
        response,
        Err(ApiError::new(
            STATUS_NOT_FOUND,
            "no directory \"does-not-exist\" exists under the videos root".to_string()
        ))
    );
}

#[test]
fn it_should_fail_if_repository_fails() {
    let response = list_directories_response(
        VIDEOS_ROOT,
        Err(ListDirectoriesError::Repository("the videos root is unreadable".to_string())),
    );

    assert_eq!(response, Err(ApiError::internal("the videos root is unreadable".to_string())));
}

#[test]
fn it_should_create_a_playlist() {
    assert_eq!(
        create_playlist_response(Ok(CreatePlaylistOutcome::Created(playlist("PL1")))),
        Ok((STATUS_CREATED, playlist_response("PL1")))
    );
}

#[test]
fn it_should_return_the_existing_playlist_if_already_created() {
    assert_eq!(
        create_playlist_response(Ok(CreatePlaylistOutcome::AlreadyExisted(playlist("PL1")))),
        Ok((STATUS_OK, playlist_response("PL1")))
    );
}

#[test]
fn it_should_fail_to_create_if_path_already_in_use() {
    let message = "playlist path \"shared/path\" is already used by another playlist";

    assert_eq!(
        create_playlist_response(Err(CreatePlaylistError::PathAlreadyInUse(
            "shared/path".to_string()
        ))),
        Err(ApiError::bad_request(message.to_string()))
    );
}

#[test]
fn it_should_fail_to_create_if_playlist_not_found_on_youtube() {
    let message = "YouTube playlist PL404 does not exist or is not accessible";

    assert_eq!(
        create_playlist_response(Err(CreatePlaylistError::YoutubePlaylistNotFound(
            "PL404".to_string()
        ))),
        Err(ApiError::bad_request(message.to_string()))
    );
}

#[test]
fn it_should_fail_to_create_a_playlist_if_youtube_lookup_fails() {
    assert_eq!(
        create_playlist_response(Err(CreatePlaylistError::Lookup(
            "YouTube API request failed".to_string()
        ))),
        Err(ApiError::new(STATUS_BAD_GATEWAY, "YouTube API request failed".to_string()))
    );
}

#[test]
fn it_should_delete_a_playlist() {
    assert_eq!(delete_playlist_response(Ok(())), Ok(STATUS_NO_CONTENT));
}

#[test]
fn it_should_fail_to_delete_a_missing_playlist() {
    assert_eq!(
        delete_playlist_response(Err(DeletePlaylistError::NotFound("PL404".to_string()))),
        Err(ApiError::bad_request("playlist PL404 not found".to_string()))
    );
}

#[test]
fn it_should_fail_if_playlist_not_found() {
    assert_eq!(
        list_videos_error(ListVideosError::PlaylistNotFound("PL404".to_string())),
        ApiError::bad_request("playlist PL404 not found".to_string())
    );
}

#[test]
fn it_should_fail_if_channel_not_found() {
    assert_eq!(
        list_videos_error(ListVideosError::ChannelNotFound("@missing".to_string())),
        ApiError::bad_request("channel @missing not found".to_string())
    );
}

#[test]
fn it_should_default_recent_limit_to_20() {
    assert_eq!(recent_videos_limit(&ListRecentVideosQuery { limit: None }), 20);
}

#[test]
fn it_should_honor_an_explicit_recent_limit() {
    assert_eq!(recent_videos_limit(&ListRecentVideosQuery { limit: Some(2) }), 2);
}

#[test]
fn it_should_cap_recent_limit_at_100() {
    assert_eq!(recent_videos_limit(&ListRecentVideosQuery { limit: Some(1000) }), 100);
    assert_eq!(recent_videos_limit(&ListRecentVideosQuery { limit: Some(100) }), 100);
}

#[test]
fn it_should_fail_to_record_progress_of_an_unknown_video() {
    assert_eq!(
        watch_state_response(Err(UpdateWatchStateError::VideoNotFound("x".to_string()))),
        Err(ApiError::bad_request("video x not found".to_string()))
    );
}

#[test]
fn it_should_fail_to_record_progress_if_position_missing() {
    let response: Result<i64, ApiError> = required(None, MISSING_POSITION);

    assert_eq!(
        response,
        Err(ApiError::bad_request("Playback position must not be negative (missing)".to_string()))
    );
}

#[test]
fn it_should_record_playback_progress() {
    assert_eq!(watch_state_response(Ok(())), Ok(STATUS_NO_CONTENT));
}

#[test]
fn it_should_report_a_failed_watch_state_update_as_internal() {
    let error = update_watch_state_error(UpdateWatchStateError::Repository("locked".to_string()));

    assert_eq!(error, ApiError::internal("locked".to_string()));
    assert_eq!(error.message(), "locked");
}

fn video(youtube_id: &str, title: &str) -> Video {
    Video {
        youtube_id: youtube_id.to_string(),
        title: title.to_string(),
        status: VideoStatus::Downloaded,
        quality: Some(Quality::High),
        filename: Some(format!("{title}.mp4")),
        thumbnail_filename: Some(format!("{title}.jpg")),
        duration_seconds: Some(100),
        created_at: fixed_timestamp(),
        updated_at: fixed_timestamp(),
        watched_at: None,
        position_seconds: 0,
    }
}

fn pending_video(youtube_id: &str, title: &str) -> Video {
    Video {
        status: VideoStatus::Pending,
        quality: None,
        filename: None,
        thumbnail_filename: None,
        duration_seconds: None,
        ..video(youtube_id, title)
    }
}

fn pending_video_response(youtube_id: &str, title: &str) -> VideoResponse {
    VideoResponse {
        id: youtube_id.to_string(),
        title: title.to_string(),
        status: "PENDING".to_string(),
        quality: None,
        filename: None,
        thumbnail_filename: None,
        duration_seconds: None,
        created_at: fixed_timestamp(),
        updated_at: fixed_timestamp(),
        watched: false,
        position_seconds: 0,
    }
}

#[test]
fn it_should_include_channel_avatar_in_recent_videos() {
    let recent = RecentVideo {
        video: video("vid1", "My Video"),
        source: VideoSource::Channel(
            handle("@somechannel"),
            "creators/somechannel".to_string(),
            Some("@somechannel.jpg".to_string()),
        ),
    };

    assert_eq!(
        RecentVideoResponse::from(recent),
        RecentVideoResponse {
            id: "vid1".to_string(),
            title: "My Video".to_string(),
            thumbnail_filename: Some("My Video.jpg".to_string()),
            duration_seconds: Some(100),
            source: RecentVideoSourceResponse {
                kind: "channel".to_string(),
                id: "@somechannel".to_string(),
                path: "creators/somechannel".to_string(),
                avatar_filename: Some("@somechannel.jpg".to_string()),
            },
            watched: false,
        }
    );
}

#[test]
fn it_should_merge_recent_videos_from_playlists_and_channels() {
    let from_playlist = RecentVideo {
        video: video("vid_from_playlist", "From Playlist"),
        source: VideoSource::Playlist(
            PlaylistId::new("PL1".to_string()).unwrap(),
            "my-playlist".to_string(),
        ),
    };
    let from_channel = RecentVideo {
        video: video("vid_from_channel", "From Channel"),
        source: VideoSource::Channel(handle("@somechannel"), "creators/somechannel".to_string(), None),
    };

    let response = list_recent_videos_response(Ok(vec![from_playlist, from_channel])).unwrap();

    assert_eq!(response.len(), 2);
    assert_eq!(response[0].id, "vid_from_playlist");
    assert_eq!(
        response[0].source,
        RecentVideoSourceResponse {
            kind: "playlist".to_string(),
            id: "PL1".to_string(),
            path: "my-playlist".to_string(),
            avatar_filename: None,
        }
    );
    assert_eq!(response[1].id, "vid_from_channel");
    assert_eq!(response[1].source.kind, "channel");
}

#[test]
fn it_should_report_a_failed_recent_listing() {
    assert_eq!(
        list_recent_videos_response(Err(ListVideosError::Repository("locked".to_string()))),
        Err(ApiError::internal("locked".to_string()))
    );
    assert_eq!(STATUS_BAD_REQUEST, 400);
}

#[test]
fn it_should_describe_a_created_channel_with_its_quality_name() {
    let response = ChannelResponse::from(Channel { quality: Quality::Mid, ..channel("@other") });

    assert_eq!(response.id, "@other");
    assert_eq!(response.quality, "mid");
}

#[test]
fn it_should_fail_to_create_if_video_limit_missing() {
    let response: Result<i64, ApiError> = required(None, MISSING_VIDEO_LIMIT);

    assert_eq!(
        response,
        Err(ApiError::bad_request("Video limit must be a positive integer (missing)".to_string()))
    );
}

#[test]
fn mod_it_should_fail_to_create_if_path_missing() {
    let response: Result<String, ApiError> = required(None, MISSING_PATH);

    assert_eq!(response, Err(ApiError::bad_request("Channel path must not be empty".to_string())));
    let playlist_response: Result<String, ApiError> =
        required(None, yarrtube::http::playlists::MISSING_PATH);
    assert_eq!(
        playlist_response,
        Err(ApiError::bad_request("Playlist path must not be empty".to_string()))
    );
}

#[test]
fn it_should_fail_to_create_if_channel_missing() {
    let request = CreateChannelRequest { channel: None, ..create_channel_request("@somechannel") };

    assert_eq!(
        validate_create_channel_request(request),
        Err(ApiError::bad_request("Channel handle or URL must not be empty".to_string()))
    );
}

#[test]
fn it_should_fail_to_create_if_invalid_channel_provided() {
    assert_eq!(
        validate_create_channel_request(create_channel_request("somechannel")),
        Err(ApiError::bad_request(
            "Channel handle must start with \"@\" (got \"somechannel\")".to_string()
        ))
    );
}

#[test]
fn it_should_create_a_channel_from_a_youtube_url() {
    let checked =
        validate_create_channel_request(create_channel_request("https://www.youtube.com/@somechannel"))
            .unwrap();

    assert_eq!(checked.id.as_str(), "@somechannel");
    assert_eq!(checked.quality, Quality::High);
    assert_eq!(checked.video_limit, 10);
    assert_eq!(checked.path, "creators/somechannel");
}

#[test]
fn it_should_read_a_channel_handle_from_a_short_url_with_a_subpage() {
    let checked =
        validate_create_channel_request(create_channel_request("https://youtube.com/@other/videos?x=1"))
            .unwrap();

    assert_eq!(checked.id.as_str(), "@other");
}

#[test]
fn it_should_check_a_channel_request_for_a_missing_quality() {
    let request = CreateChannelRequest { quality: None, ..create_channel_request("@somechannel") };

    assert_eq!(
        validate_create_channel_request(request),
        Err(ApiError::bad_request(
            "Quality must be one of \"high\", \"mid\", or \"low\" (missing)".to_string()
        ))
    );
}

#[test]
fn it_should_reject_an_unknown_quality() {
    let request = CreateChannelRequest {
        quality: Some("ultra".to_string()),
        ..create_channel_request("@somechannel")
    };

    assert_eq!(
        validate_create_channel_request(request),
        Err(ApiError::bad_request(
            "Quality must be one of \"high\", \"mid\", or \"low\" (got \"ultra\")".to_string()
        ))
    );
}

#[test]
fn it_should_check_a_channel_request_for_a_missing_video_limit() {
    let request = CreateChannelRequest { video_limit: None, ..create_channel_request("@somechannel") };

    assert_eq!(
        validate_create_channel_request(request),
        Err(ApiError::bad_request("Video limit must be a positive integer (missing)".to_string()))
    );
}

#[test]
fn it_should_reject_a_video_limit_that_is_not_positive() {
    let zero = CreateChannelRequest { video_limit: Some(0), ..create_channel_request("@somechannel") };
    let negative =
        CreateChannelRequest { video_limit: Some(-3), ..create_channel_request("@somechannel") };
    let too_large = CreateChannelRequest {
        video_limit: Some(4_294_967_296),
        ..create_channel_request("@somechannel")
    };

    assert_eq!(
        validate_create_channel_request(zero),
        Err(ApiError::bad_request("Video limit must be a positive integer (got 0)".to_string()))
    );
    assert_eq!(
        validate_create_channel_request(negative),
        Err(ApiError::bad_request("Video limit must be a positive integer (got -3)".to_string()))
    );
    assert_eq!(
        validate_create_channel_request(too_large),
        Err(ApiError::bad_request(
            "Video limit must be a positive integer (got 4294967296)".to_string()
        ))
    );
}

#[test]
fn it_should_check_a_channel_request_for_a_missing_path() {
    let request = CreateChannelRequest { path: None, ..create_channel_request("@somechannel") };

    assert_eq!(
        validate_create_channel_request(request),
        Err(ApiError::bad_request("Channel path must not be empty".to_string()))
    );
}

#[test]
fn it_should_check_the_channel_before_the_other_fields() {
    let request = CreateChannelRequest {
        channel: Some("".to_string()),
        quality: None,
        video_limit: None,
        path: None,
    };

    assert_eq!(
        validate_create_channel_request(request),
        Err(ApiError::bad_request("Channel handle or URL must not be empty".to_string()))
    );
}

#[test]
fn it_should_create_a_playlist_from_a_youtube_url() {
    let checked = validate_create_playlist_request(create_playlist_request(
        "https://www.youtube.com/playlist?list=PL1",
    ))
    .unwrap();

    assert_eq!(checked.id.as_str(), "PL1");
    assert_eq!(checked.name, "My Playlist");
    assert_eq!(checked.path, "music/chill");
    assert_eq!(checked.quality, Quality::High);
}

#[test]
fn it_should_stop_a_playlist_id_at_the_next_url_parameter() {
    let checked = validate_create_playlist_request(create_playlist_request(
        "https://youtube.com/playlist?list=PL9&index=2",
    ))
    .unwrap();

    assert_eq!(checked.id.as_str(), "PL9");
}

#[test]
fn it_should_fail_to_create_if_invalid_playlist_provided() {
    assert_eq!(
        validate_create_playlist_request(create_playlist_request("")),
        Err(ApiError::bad_request("Playlist ID or URL must not be empty".to_string()))
    );
    assert_eq!(
        validate_create_playlist_request(create_playlist_request("   ")),
        Err(ApiError::bad_request("YouTube playlist ID must not be empty".to_string()))
    );
}

#[test]
fn it_should_check_a_playlist_request_for_a_missing_path() {
    let request = CreatePlaylistRequest { path: None, ..create_playlist_request("PL1") };

    assert_eq!(
        validate_create_playlist_request(request),
        Err(ApiError::bad_request("Playlist path must not be empty".to_string()))
    );
}

#[test]
fn it_should_check_a_playlist_request_for_a_missing_quality() {
    let request = CreatePlaylistRequest { quality: None, ..create_playlist_request("PL1") };

    assert_eq!(
        validate_create_playlist_request(request),
        Err(ApiError::bad_request(
            "Quality must be one of \"high\", \"mid\", or \"low\" (missing)".to_string()
        ))
    );
}

#[test]
fn it_should_publish_playlist_created_only_once() {
    let first = create_playlist_response(Ok(CreatePlaylistOutcome::Created(playlist("PL1"))));
    let second = create_playlist_response(Ok(CreatePlaylistOutcome::AlreadyExisted(playlist("PL1"))));

    assert_eq!(first, Ok((STATUS_CREATED, playlist_response("PL1"))));
    assert_eq!(second, Ok((STATUS_OK, playlist_response("PL1"))));
}

#[test]
fn it_should_list_all_playlists() {
    assert_eq!(
        list_playlists_response(Ok(vec![playlist("PL1"), playlist("PL2")])),
        Ok(vec![playlist_response("PL1"), playlist_response("PL2")])
    );
    assert_eq!(list_playlists_response(Ok(vec![])), Ok(vec![]));
    assert_eq!(
        list_playlists_response(Err("locked".to_string())),
        Err(ApiError::internal("locked".to_string()))
    );
}

#[test]
fn it_should_fail_if_invalid_path_provided() {
    let query = ListDirectoriesQuery { path: Some("playlists/../..".to_string()) };

    assert_eq!(
        directory_to_list(query),
        Err(ApiError::bad_request("Directory path must not contain \"..\" segments".to_string()))
    );
}

#[test]
fn it_should_list_the_root_when_no_directory_is_named() {
    assert_eq!(directory_to_list(ListDirectoriesQuery { path: None }), Ok(String::new()));
    assert_eq!(
        directory_to_list(ListDirectoriesQuery { path: Some("playlists/..music".to_string()) }),
        Ok("playlists/..music".to_string())
    );
}

#[test]
fn it_should_fail_to_record_progress_if_invalid_position_provided() {
    let request = RecordProgressRequest { position_seconds: Some(-1), duration_seconds: Some(100) };

    assert_eq!(
        validate_record_progress_request("vid1".to_string(), request),
        Err(ApiError::bad_request("Playback position must not be negative (got -1)".to_string()))
    );
}

#[test]
fn it_should_check_a_progress_request_for_a_missing_position() {
    let request = RecordProgressRequest { position_seconds: None, duration_seconds: Some(100) };

    assert_eq!(
        validate_record_progress_request("vid1".to_string(), request),
        Err(ApiError::bad_request("Playback position must not be negative (missing)".to_string()))
    );
}

#[test]
fn it_should_accept_a_progress_request() {
    let request = RecordProgressRequest { position_seconds: Some(30), duration_seconds: None };

    assert_eq!(validate_record_progress_request("vid1".to_string(), request), Ok(("vid1".to_string(), 30, None)));
}

#[test]
fn it_should_include_whether_recent_videos_were_watched() {
    let recent = RecentVideo {
        video: Video { watched_at: Some(fixed_timestamp()), ..video("vid1", "My Video") },
        source: VideoSource::Playlist(
            PlaylistId::new("PL1".to_string()).unwrap(),
            "music/chill".to_string(),
        ),
    };

    let response = RecentVideoResponse::from(recent);

    assert!(response.watched);
    assert_eq!(response.id, "vid1");
}

#[test]
fn it_should_include_watch_state_when_listing_playlist_videos() {
    let watched = Video { watched_at: Some(fixed_timestamp()), ..pending_video("vid_watched", "Watched") };
    let partly = Video { position_seconds: 42, ..pending_video("vid_partly", "Partly") };

    assert_eq!(
        list_videos_response(Ok(vec![watched, partly])),
        Ok(vec![
            VideoResponse { watched: true, ..pending_video_response("vid_watched", "Watched") },
            VideoResponse { position_seconds: 42, ..pending_video_response("vid_partly", "Partly") },
        ])
    );
}

#[test]
fn it_should_include_download_details_of_downloaded_videos() {
    assert_eq!(
        VideoResponse::from(video("vid1", "My Video")),
        VideoResponse {
            status: "DOWNLOADED".to_string(),
            quality: Some("high".to_string()),
            filename: Some("My Video.mp4".to_string()),
            thumbnail_filename: Some("My Video.jpg".to_string()),
            duration_seconds: Some(100),
            ..pending_video_response("vid1", "My Video")
        }
    );
}

#[test]
fn it_should_report_an_unknown_container_when_listing_videos() {
    assert_eq!(
        list_videos_response(Err(ListVideosError::PlaylistNotFound("PL404".to_string()))),
        Err(ApiError::bad_request("playlist PL404 not found".to_string()))
    );
    assert_eq!(list_videos_response(Ok(vec![])), Ok(vec![]));
}

#[test]
fn it_should_list_a_pending_task() {
    let mut payload = std::collections::HashMap::new();
    payload.insert("playlist_name".to_string(), "My Playlist".to_string());
    let view = TaskView {
        id: 7,
        task_type: "reconcile_playlist".to_string(),
        status: TaskStatus::Pending,
        retries: 1,
        run_at: fixed_timestamp(),
        created_at: fixed_timestamp(),
        last_error: Some("timeout".to_string()),
        payload: payload.clone(),
    };

    assert_eq!(
        list_tasks_response(Ok(vec![view])),
        Ok(vec![TaskResponse {
            id: 7,
            task_type: "reconcile_playlist".to_string(),
            status: "pending".to_string(),
            retries: 1,
            run_at: fixed_timestamp(),
            created_at: fixed_timestamp(),
            last_error: Some("timeout".to_string()),
            payload,
        }])
    );
    assert_eq!(
        list_tasks_response(Err("locked".to_string())),
        Err(ApiError::internal("locked".to_string()))
    );
}

#[test]
fn it_should_fail_to_delete_if_invalid_handle_provided() {
    assert_eq!(
        ChannelHandle::parse("noatsign".to_string()).map_err(ApiError::bad_request),
        Err(ApiError::bad_request(
            "Channel handle must start with \"@\" (got \"noatsign\")".to_string()
        ))
    );
}

#[test]
fn it_should_fail_to_reconcile_if_invalid_handle_provided() {
    let response = ChannelHandle::parse("noatsign".to_string()).map_err(ApiError::bad_request);

    assert_eq!(
        response.unwrap_err().message(),
        "Channel handle must start with \"@\" (got \"noatsign\")"
    );
}

#[test]
fn it_should_fail_to_mark_watched_if_invalid_handle_provided() {
    let response = ChannelHandle::parse("noatsign".to_string()).map_err(ApiError::bad_request);

    assert_eq!(response.unwrap_err().status(), STATUS_BAD_REQUEST);
}

#[test]
fn it_should_fail_if_invalid_handle_provided() {
    assert_eq!(
        ChannelHandle::parse("somechannel".to_string()).map_err(ApiError::bad_request),
        Err(ApiError::bad_request(
            "Channel handle must start with \"@\" (got \"somechannel\")".to_string()
        ))
    );
    assert_eq!(ChannelHandle::parse("@somechannel".to_string()).unwrap().as_str(), "@somechannel");
}

#[test]
fn it_should_fail_to_delete_if_invalid_playlist_id_provided() {
    assert_eq!(
        PlaylistId::parse("".to_string()).map_err(ApiError::bad_request),
        Err(ApiError::bad_request("YouTube playlist ID must not be empty".to_string()))
    );
}

#[test]
fn it_should_fail_to_reconcile_if_invalid_playlist_id_provided() {
    assert_eq!(
        PlaylistId::parse("".to_string()).unwrap_err(),
        "YouTube playlist ID must not be empty"
    );
}

#[test]
fn it_should_fail_if_invalid_playlist_id_provided() {
    assert_eq!(
        PlaylistId::parse(" ".to_string()).map_err(ApiError::bad_request),
        Err(ApiError::bad_request("YouTube playlist ID must not be empty".to_string()))
    );
    assert_eq!(PlaylistId::parse("PL1".to_string()).unwrap().as_str(), "PL1");
}

#[test]
fn it_should_list_no_playlists() {
    assert_eq!(list_playlists_response(Ok(vec![])), Ok(vec![]));
}

#[test]
fn it_should_return_an_empty_list_when_no_tasks_exist() {
    assert_eq!(list_tasks_response(Ok(vec![])), Ok(vec![]));
}

#[test]
fn it_should_list_playlist_videos() {
    assert_eq!(
        list_videos_response(Ok(vec![pending_video("vid1", "My Video")])),
        Ok(vec![pending_video_response("vid1", "My Video")])
    );
}

#[test]
fn it_should_include_watch_state_when_listing_channel_videos() {
    let watched = Video { watched_at: Some(fixed_timestamp()), ..pending_video("vid_watched", "Watched") };

    let response = list_videos_response(Ok(vec![watched])).unwrap();

    assert!(response[0].watched);
    assert_eq!(response[0].position_seconds, 0);
}

#[test]
fn it_should_list_no_videos_for_an_empty_playlist() {
    assert_eq!(list_videos_response(Ok(vec![])), Ok(vec![]));
}

#[test]
fn it_should_list_no_recent_videos_if_nothing_downloaded() {
    assert_eq!(list_recent_videos_response(Ok(vec![])), Ok(vec![]));
}

#[test]
fn it_should_include_duration_in_recent_videos() {
    let recent = RecentVideo {
        video: Video { duration_seconds: Some(223), ..video("vid1", "My Video") },
        source: VideoSource::Playlist(
            PlaylistId::new("PL1".to_string()).unwrap(),
            "music/chill".to_string(),
        ),
    };

    let response = RecentVideoResponse::from(recent);

    assert_eq!(response.duration_seconds, Some(223));
    assert!(!response.watched);
}

#[test]
fn it_should_check_the_video_id_before_the_position() {
    let request = RecordProgressRequest { position_seconds: Some(-1), duration_seconds: None };

    assert_eq!(
        validate_record_progress_request(" ".to_string(), request),
        Err(ApiError::bad_request("YouTube video ID must not be empty".to_string()))
    );
}

#[test]
fn it_should_reject_a_blank_playlist_name() {
    let request =
        CreatePlaylistRequest { name: "  ".to_string(), ..create_playlist_request("PL1") };

    assert_eq!(
        validate_create_playlist_request(request),
        Err(ApiError::bad_request("Playlist name must not be empty".to_string()))
    );
}

#[test]
fn it_should_reject_an_invalid_playlist_path() {
    let blank = CreatePlaylistRequest { path: Some("".to_string()), ..create_playlist_request("PL1") };
    let absolute =
        CreatePlaylistRequest { path: Some("/etc".to_string()), ..create_playlist_request("PL1") };
    let climbing = CreatePlaylistRequest {
        path: Some("music/../../etc".to_string()),
        ..create_playlist_request("PL1")
    };

    assert_eq!(
        validate_create_playlist_request(blank),
        Err(ApiError::bad_request("Playlist path must not be empty".to_string()))
    );
    assert_eq!(
        validate_create_playlist_request(absolute),
        Err(ApiError::bad_request("Playlist path must be relative (got \"/etc\")".to_string()))
    );
    assert_eq!(
        validate_create_playlist_request(climbing),
        Err(ApiError::bad_request(
            "Playlist path must not contain \"..\" segments".to_string()
        ))
    );
}

#[test]
fn it_should_reject_an_invalid_channel_path() {
    let request = CreateChannelRequest {
        path: Some("../outside".to_string()),
        ..create_channel_request("@somechannel")
    };

    assert_eq!(
        validate_create_channel_request(request),
        Err(ApiError::bad_request(
            "Playlist path must not contain \"..\" segments".to_string()
        ))
    );
}
