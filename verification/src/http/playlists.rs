use super::error::{
    ApiError, STATUS_BAD_GATEWAY, STATUS_BAD_REQUEST, STATUS_CREATED, STATUS_INTERNAL_SERVER_ERROR,
    STATUS_NO_CONTENT, STATUS_OK,
};
use crate::domain::playlist::{
    create_playlist_error_message, delete_playlist_error_message, playlist_kind_name,
    CreatePlaylistError, CreatePlaylistOutcome, DeletePlaylistError, Playlist,
};
use super::validation::{
    lemma_accepted_fields_are_what_was_sent, opt_text, quality_checked, required, required_quality,
};
use crate::domain::playlist::{
    check_output_path, check_playlist_name, output_path_checked, playlist_from_url_or_id,
    playlist_id_named_by, playlist_name_checked, PlaylistId,
};
use crate::domain::shared::{
    lemma_quality_name_round_trip, quality_name, quality_named, Quality, Timestamp,
};
use vstd::prelude::*;

verus! {

/// The message a request to track a playlist is rejected with when it names
/// no path.
pub const MISSING_PATH: &'static str = "Playlist path must not be empty";

/// A tracked playlist, as answered.
#[derive(Debug, Clone, PartialEq, Eq)]
pub struct PlaylistResponse {
    pub id: String,
    pub name: String,
    pub path: String,
    pub quality: String,
    pub kind: String,
    pub created_at: Timestamp,
}

/// `r` answers with `playlist`: its fields, its id, quality and kind
/// written out.
pub open spec fn describes_playlist(r: PlaylistResponse, playlist: Playlist) -> bool {
    &&& r.id@ == playlist.id@
    &&& r.name == playlist.name
    &&& r.path == playlist.path
    &&& r.quality@ == quality_name(playlist.quality)
    &&& r.kind@ == playlist_kind_name(playlist.kind)
    &&& r.created_at == playlist.created_at
}

impl PlaylistResponse {
    pub fn from(playlist: Playlist) -> (r: Self)
        ensures
            describes_playlist(r, playlist),
    {
        PlaylistResponse {
            id: playlist.id.into_string(),
            name: playlist.name,
            path: playlist.path,
            quality: playlist.quality.as_str().to_string(),
            kind: playlist.kind.as_str().to_string(),
            created_at: playlist.created_at,
        }
    }
}

/// The status a failed playlist creation is answered with: `400 Bad
/// Request` when YouTube knows no such playlist or its path is taken, `502
/// Bad Gateway` when the YouTube lookup failed, `500 Internal Server Error`
/// when storing failed.
pub open spec fn create_playlist_error_status(e: CreatePlaylistError) -> u16 {
    match e {
        CreatePlaylistError::YoutubePlaylistNotFound(_) => STATUS_BAD_REQUEST,
        CreatePlaylistError::PathAlreadyInUse(_) => STATUS_BAD_REQUEST,
        CreatePlaylistError::Lookup(_) => STATUS_BAD_GATEWAY,
        CreatePlaylistError::Repository(_) => STATUS_INTERNAL_SERVER_ERROR,
    }
}

/// The answer to a request to track a playlist: `201 Created` with the new
/// playlist, `200 OK` with the playlist when it was tracked already, or the
/// failure with its status and message.
pub fn create_playlist_response(outcome: Result<CreatePlaylistOutcome, CreatePlaylistError>) -> (r:
    Result<(u16, PlaylistResponse), ApiError>)
    ensures
        match outcome {
            Ok(CreatePlaylistOutcome::Created(p)) => r matches Ok((s, resp)) && s == STATUS_CREATED
                && describes_playlist(resp, p),
            Ok(CreatePlaylistOutcome::AlreadyExisted(p)) => r matches Ok((s, resp)) && s
                == STATUS_OK && describes_playlist(resp, p),
            Err(err) => r matches Err(e) && e@ == (
                create_playlist_error_status(err),
                create_playlist_error_message(err),
            ),
        },
{
    match outcome {
        Ok(CreatePlaylistOutcome::Created(p)) => Ok((STATUS_CREATED, PlaylistResponse::from(p))),
        Ok(CreatePlaylistOutcome::AlreadyExisted(p)) => Ok((STATUS_OK, PlaylistResponse::from(p))),
        Err(err) => {
            let m = err.message();
            match err {
                CreatePlaylistError::YoutubePlaylistNotFound(_) => Err(ApiError::bad_request(m)),
                CreatePlaylistError::PathAlreadyInUse(_) => Err(ApiError::bad_request(m)),
                CreatePlaylistError::Lookup(_) => Err(ApiError::new(STATUS_BAD_GATEWAY, m)),
                CreatePlaylistError::Repository(_) => Err(ApiError::internal(m)),
            }
        },
    }
}

/// The answer to a request to stop tracking a playlist: `204 No Content`
/// once deleted, `400 Bad Request` for a playlist not tracked, `500
/// Internal Server Error` when deleting failed; each failure with its
/// message.
pub fn delete_playlist_response(result: Result<(), DeletePlaylistError>) -> (r: Result<
    u16,
    ApiError,
>)
    ensures
        match result {
            Ok(()) => r == Ok::<u16, ApiError>(STATUS_NO_CONTENT),
            Err(err) => r matches Err(e) && e@ == (
                if err is NotFound {
                    STATUS_BAD_REQUEST
                } else {
                    STATUS_INTERNAL_SERVER_ERROR
                },
                delete_playlist_error_message(err),
            ),
        },
{
    match result {
        Ok(()) => Ok(STATUS_NO_CONTENT),
        Err(err) => {
            let m = err.message();
            match err {
                DeletePlaylistError::NotFound(_) => Err(ApiError::bad_request(m)),
                DeletePlaylistError::Repository(_) => Err(ApiError::internal(m)),
            }
        },
    }
}

/// The answer to a listing of the tracked playlists: each of them, in
/// order, or `500 Internal Server Error` with the message of the failed
/// search.
pub fn list_playlists_response(result: Result<Vec<Playlist>, String>) -> (r: Result<
    Vec<PlaylistResponse>,
    ApiError,
>)
    ensures
        match result {
            Ok(playlists) => r matches Ok(items) && items.len() == playlists.len() && forall|i: int|
                0 <= i < playlists.len() ==> describes_playlist(#[trigger] items[i], playlists[i]),
            Err(m) => r matches Err(e) && e@ == (STATUS_INTERNAL_SERVER_ERROR, m@),
        },
{
    match result {
        Err(m) => Err(ApiError::internal(m)),
        Ok(playlists) => {
            let ghost listed = playlists@;
            let mut items: Vec<PlaylistResponse> = Vec::new();
            for playlist in it: playlists
                invariant
                    it.seq() == listed,
                    items.len() == it.index(),
                    forall|i: int|
                        0 <= i < items.len() ==> describes_playlist(#[trigger] items[i], listed[i]),
            {
                items.push(PlaylistResponse::from(playlist));
            }
            Ok(items)
        },
    }
}

/// The body of a request to track a playlist: the playlist id or URL, the
/// name to show it by, and the path and quality, which may be missing.
#[derive(Debug, Clone, PartialEq, Eq)]
pub struct CreatePlaylistRequest {
    pub playlist: String,
    pub name: String,
    pub path: Option<String>,
    pub quality: Option<String>,
}

/// What a request to track a playlist asks for, once checked.
#[derive(Debug, Clone, PartialEq, Eq)]
pub struct CreatePlaylist {
    pub id: PlaylistId,
    pub name: String,
    pub path: String,
    pub quality: Quality,
}

/// What a request to track a playlist asks for (the id, name, path and
/// quality), or the message of the first check it fails, checked in this
/// order: the playlist id or URL, the name (not blank), the path (present,
/// and a valid output path), the quality.
pub open spec fn create_playlist_checked(request: CreatePlaylistRequest) -> Result<
    (Seq<char>, Seq<char>, Seq<char>, Quality),
    Seq<char>,
> {
    match playlist_from_url_or_id(request.playlist@) {
        Err(m) => Err(m),
        Ok(id) => match playlist_name_checked(request.name@) {
            Err(m) => Err(m),
            Ok(name) => match request.path {
                None => Err(MISSING_PATH@),
                Some(p) => match output_path_checked(p@) {
                    Err(m) => Err(m),
                    Ok(path) => match quality_checked(opt_text(request.quality)) {
                        Err(m) => Err(m),
                        Ok(q) => Ok((id, name, path, q)),
                    },
                },
            },
        },
    }
}

/// Checks a request to track a playlist before anything is looked up: what
/// it asks for, or `400 Bad Request` with the message of the first check it
/// fails.
pub fn validate_create_playlist_request(request: CreatePlaylistRequest) -> (r: Result<
    CreatePlaylist,
    ApiError,
>)
    ensures
        match create_playlist_checked(request) {
            Ok((id, name, path, quality)) => r matches Ok(c) && c.id@ == id && c.name@ == name
                && c.path@ == path && c.quality == quality,
            Err(m) => r matches Err(e) && e@ == (STATUS_BAD_REQUEST, m),
        },
{
    let id = match PlaylistId::from_url_or_id(request.playlist) {
        Ok(id) => id,
        Err(m) => return Err(ApiError::bad_request(m)),
    };
    let name = match check_playlist_name(request.name) {
        Ok(name) => name,
        Err(m) => return Err(ApiError::bad_request(m)),
    };
    let path = match check_output_path(required(request.path, MISSING_PATH)?) {
        Ok(path) => path,
        Err(m) => return Err(ApiError::bad_request(m)),
    };
    let quality = required_quality(request.quality)?;
    Ok(CreatePlaylist { id, name, path, quality })
}

/// An accepted request to track a playlist asks for exactly what it sent:
/// the playlist id its playlist field names, its name, its path, and the
/// quality its quality field names.
pub proof fn lemma_accepted_playlist_request_carries_its_fields(request: CreatePlaylistRequest)
    ensures
        create_playlist_checked(request) matches Ok((id, name, path, q)) ==> {
            &&& id == playlist_id_named_by(request.playlist@)
            &&& name == request.name@
            &&& request.path is Some
            &&& path == request.path->0@
            &&& request.quality is Some
            &&& quality_named(request.quality->0@) == Some(q)
        },
{
    lemma_accepted_fields_are_what_was_sent(opt_text(request.quality), None);
}

/// A tracked playlist is answered with its own quality and kind: the
/// written quality reads back as the playlist's.
pub proof fn lemma_playlist_response_quality_reads_back(r: PlaylistResponse, playlist: Playlist)
    requires
        describes_playlist(r, playlist),
    ensures
        quality_named(r.quality@) == Some(playlist.quality),
        r.kind@ == "youtube_linked"@,
        r.id@ == playlist.id@,
{
    lemma_quality_name_round_trip(playlist.quality);
}

} // verus!
