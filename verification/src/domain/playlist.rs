use super::shared::{blank, is_blank, Quality, Timestamp};
use crate::text::{
    before_char, concat3, contains_parent_segment, has_parent_segment, starts_with, until_char,
};
use vstd::prelude::*;

verus! {

/// Whether `s` is a playlist id: it is not blank.
pub open spec fn is_playlist_id(s: Seq<char>) -> bool {
    !is_blank(s)
}

/// A YouTube playlist id such as `PL1`, the id a tracked playlist is stored
/// and addressed by.
#[derive(Debug, PartialEq, Eq)]
pub struct PlaylistId {
    value: String,
}

impl View for PlaylistId {
    type V = Seq<char>;

    closed spec fn view(&self) -> Seq<char> {
        self.value@
    }
}

impl Clone for PlaylistId {
    fn clone(&self) -> (r: Self)
        ensures
            r == *self,
    {
        proof {
            use_type_invariant(self);
        }
        PlaylistId { value: self.value.clone() }
    }
}

impl PlaylistId {
    /// Every PlaylistId holds a valid value.
    #[verifier::type_invariant]
    spec fn well_formed(self) -> bool {
        is_playlist_id(self.value@)
    }

    /// The id `value`, or `None` when it is empty or whitespace only.
    pub fn new(value: String) -> (r: Option<PlaylistId>)
        ensures
            r is Some <==> is_playlist_id(value@),
            r matches Some(id) ==> id@ == value@,
    {
        if blank(value.as_str()) {
            None
        } else {
            Some(PlaylistId { value })
        }
    }

    pub fn as_str(&self) -> (r: &str)
        ensures
            r@ == self@,
            is_playlist_id(r@),
    {
        proof {
            use_type_invariant(self);
        }
        self.value.as_str()
    }

    pub fn into_string(self) -> (r: String)
        ensures
            r@ == self@,
            is_playlist_id(r@),
    {
        proof {
            use_type_invariant(&self);
        }
        self.value
    }
}

/// How a playlist is fed: from the YouTube playlist of the same id.
#[derive(Debug, Clone, Copy, PartialEq, Eq)]
pub enum PlaylistKind {
    YoutubeLinked,
}

/// The name a playlist kind is answered with.
pub open spec fn playlist_kind_name(k: PlaylistKind) -> Seq<char> {
    match k {
        PlaylistKind::YoutubeLinked => "youtube_linked"@,
    }
}

impl PlaylistKind {
    pub fn as_str(&self) -> (r: &'static str)
        ensures
            r@ == playlist_kind_name(*self),
    {
        match self {
            PlaylistKind::YoutubeLinked => "youtube_linked",
        }
    }
}

/// The message a blank playlist id is refused with.
pub open spec fn empty_playlist_id_message() -> Seq<char> {
    "YouTube playlist ID must not be empty"@
}

impl PlaylistId {
    /// The id `value`, or the message it is refused with when it is empty or
    /// whitespace only.
    pub fn parse(value: String) -> (r: Result<PlaylistId, String>)
        ensures
            r is Ok <==> is_playlist_id(value@),
            r matches Ok(id) ==> id@ == value@,
            r matches Err(m) ==> m@ == empty_playlist_id_message(),
    {
        match PlaylistId::new(value) {
            Some(id) => Ok(id),
            None => Err("YouTube playlist ID must not be empty".to_string()),
        }
    }
}

/// A tracked playlist, as stored.
#[derive(Debug, Clone, PartialEq, Eq)]
pub struct Playlist {
    pub id: PlaylistId,
    pub name: String,
    /// Output directory, relative to the videos root.
    pub path: String,
    pub quality: Quality,
    pub kind: PlaylistKind,
    pub created_at: Timestamp,
}

/// What creating a playlist did: stored a new one, or found it tracked
/// already.
#[derive(Debug, Clone, PartialEq, Eq)]
pub enum CreatePlaylistOutcome {
    Created(Playlist),
    AlreadyExisted(Playlist),
}

/// Why creating a playlist failed: YouTube knows no playlist of that id
/// (the id), another playlist uses the path (the path), the YouTube lookup
/// failed or storing it failed (the message of either).
#[derive(Debug, Clone, PartialEq, Eq)]
pub enum CreatePlaylistError {
    YoutubePlaylistNotFound(String),
    PathAlreadyInUse(String),
    Lookup(String),
    Repository(String),
}

/// Why deleting a playlist failed: it is not tracked (its id), or the
/// repository failed (its message).
#[derive(Debug, Clone, PartialEq, Eq)]
pub enum DeletePlaylistError {
    NotFound(String),
    Repository(String),
}

/// What a failed playlist creation says: that YouTube knows no playlist of
/// the id, that another playlist uses the path, or the message of the failed
/// lookup or repository.
pub open spec fn create_playlist_error_message(e: CreatePlaylistError) -> Seq<char> {
    match e {
        CreatePlaylistError::YoutubePlaylistNotFound(id) => "YouTube playlist "@ + id@
            + " does not exist or is not accessible"@,
        CreatePlaylistError::PathAlreadyInUse(p) => "playlist path \""@ + p@
            + "\" is already used by another playlist"@,
        CreatePlaylistError::Lookup(m) => m@,
        CreatePlaylistError::Repository(m) => m@,
    }
}

impl CreatePlaylistError {
    pub fn message(&self) -> (r: String)
        ensures
            r@ == create_playlist_error_message(*self),
    {
        match self {
            CreatePlaylistError::YoutubePlaylistNotFound(id) => concat3(
                "YouTube playlist ",
                id.as_str(),
                " does not exist or is not accessible",
            ),
            CreatePlaylistError::PathAlreadyInUse(p) => concat3(
                "playlist path \"",
                p.as_str(),
                "\" is already used by another playlist",
            ),
            CreatePlaylistError::Lookup(m) => m.clone(),
            CreatePlaylistError::Repository(m) => m.clone(),
        }
    }
}

/// What a failed playlist deletion says: that no playlist of the id is
/// tracked, or the message of the failed repository.
pub open spec fn delete_playlist_error_message(e: DeletePlaylistError) -> Seq<char> {
    match e {
        DeletePlaylistError::NotFound(id) => "playlist "@ + id@ + " not found"@,
        DeletePlaylistError::Repository(m) => m@,
    }
}

impl DeletePlaylistError {
    pub fn message(&self) -> (r: String)
        ensures
            r@ == delete_playlist_error_message(*self),
    {
        match self {
            DeletePlaylistError::NotFound(id) => concat3("playlist ", id.as_str(), " not found"),
            DeletePlaylistError::Repository(m) => m.clone(),
        }
    }
}

/// The message an empty playlist id or URL is refused with.
pub open spec fn empty_playlist_id_or_url_message() -> Seq<char> {
    "Playlist ID or URL must not be empty"@
}

/// The playlist id a playlist id or playlist URL names: for a URL of
/// `https://www.youtube.com/playlist?list=` or
/// `https://youtube.com/playlist?list=`, what follows up to the next `&`;
/// anything else is taken as the id itself.
pub open spec fn playlist_id_named_by(value: Seq<char>) -> Seq<char> {
    if "https://www.youtube.com/playlist?list="@.is_prefix_of(value) {
        before_char(value.skip("https://www.youtube.com/playlist?list="@.len() as int), '&')
    } else if "https://youtube.com/playlist?list="@.is_prefix_of(value) {
        before_char(value.skip("https://youtube.com/playlist?list="@.len() as int), '&')
    } else {
        value
    }
}

/// The playlist id a playlist id or URL names, or the message it is refused
/// with.
pub open spec fn playlist_from_url_or_id(value: Seq<char>) -> Result<Seq<char>, Seq<char>> {
    if value.len() == 0 {
        Err(empty_playlist_id_or_url_message())
    } else if is_playlist_id(playlist_id_named_by(value)) {
        Ok(playlist_id_named_by(value))
    } else {
        Err(empty_playlist_id_message())
    }
}

impl PlaylistId {
    /// The id a playlist id or playlist URL names, or the message it is
    /// refused with.
    pub fn from_url_or_id(value: String) -> (r: Result<PlaylistId, String>)
        ensures
            match playlist_from_url_or_id(value@) {
                Ok(id) => r matches Ok(p) && p@ == id,
                Err(m) => r matches Err(e) && e@ == m,
            },
    {
        if value.as_str().is_empty() {
            return Err("Playlist ID or URL must not be empty".to_string());
        }
        proof {
            reveal_strlit("https://www.youtube.com/playlist?list=");
            reveal_strlit("https://youtube.com/playlist?list=");
        }
        let named = if starts_with(value.as_str(), "https://www.youtube.com/playlist?list=") {
            assert("https://www.youtube.com/playlist?list="@.len() == 38);
            let rest = value.as_str().substring_char(38, value.as_str().unicode_len());
            assert(rest@ =~= value@.skip(38));
            until_char(rest, '&')
        } else if starts_with(value.as_str(), "https://youtube.com/playlist?list=") {
            assert("https://youtube.com/playlist?list="@.len() == 34);
            let rest = value.as_str().substring_char(34, value.as_str().unicode_len());
            assert(rest@ =~= value@.skip(34));
            until_char(rest, '&')
        } else {
            value
        };
        Self::parse(named)
    }
}

/// The message a blank playlist name is refused with.
pub open spec fn empty_playlist_name_message() -> Seq<char> {
    "Playlist name must not be empty"@
}

/// The name a playlist is shown by, or the message it is refused with when
/// it is empty or whitespace only.
pub open spec fn playlist_name_checked(value: Seq<char>) -> Result<Seq<char>, Seq<char>> {
    if is_blank(value) {
        Err(empty_playlist_name_message())
    } else {
        Ok(value)
    }
}

/// Checks the name a playlist is shown by.
pub fn check_playlist_name(value: String) -> (r: Result<String, String>)
    ensures
        match playlist_name_checked(value@) {
            Ok(n) => r matches Ok(name) && name@ == n,
            Err(m) => r matches Err(e) && e@ == m,
        },
{
    if blank(value.as_str()) {
        Err("Playlist name must not be empty".to_string())
    } else {
        Ok(value)
    }
}

/// The message a blank output path is refused with.
pub open spec fn empty_path_message() -> Seq<char> {
    "Playlist path must not be empty"@
}

/// The message an absolute output path is refused with.
pub open spec fn absolute_path_message(value: Seq<char>) -> Seq<char> {
    "Playlist path must be relative (got \""@ + value + "\")"@
}

/// The message an output path that climbs out of the videos root is
/// refused with.
pub open spec fn parent_segment_path_message() -> Seq<char> {
    "Playlist path must not contain \"..\" segments"@
}

/// The output directory of a playlist or channel, relative to the videos
/// root, or the message it is refused with: it must not be blank, must not
/// start with `/`, and must have no `..` segment, so that it stays under the
/// videos root.
pub open spec fn output_path_checked(value: Seq<char>) -> Result<Seq<char>, Seq<char>> {
    if is_blank(value) {
        Err(empty_path_message())
    } else if value[0] == '/' {
        Err(absolute_path_message(value))
    } else if has_parent_segment(value) {
        Err(parent_segment_path_message())
    } else {
        Ok(value)
    }
}

/// Checks the output directory of a playlist or channel.
pub fn check_output_path(value: String) -> (r: Result<String, String>)
    ensures
        match output_path_checked(value@) {
            Ok(p) => r matches Ok(path) && path@ == p,
            Err(m) => r matches Err(e) && e@ == m,
        },
{
    if blank(value.as_str()) {
        Err("Playlist path must not be empty".to_string())
    } else if value.as_str().get_char(0) == '/' {
        Err(concat3("Playlist path must be relative (got \"", value.as_str(), "\")"))
    } else if contains_parent_segment(value.as_str()) {
        Err("Playlist path must not contain \"..\" segments".to_string())
    } else {
        Ok(value)
    }
}

} // verus!
