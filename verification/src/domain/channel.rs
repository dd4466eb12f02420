use super::shared::{Quality, Timestamp};
use crate::text::{before_separator, concat3, starts_with, until_separator};
use vstd::prelude::*;

verus! {

/// Whether `s` is a channel handle: it starts with `@`.
pub open spec fn is_channel_handle(s: Seq<char>) -> bool {
    s.len() > 0 && s[0] == '@'
}

/// A YouTube channel handle such as `@somechannel`, the id a tracked
/// channel is stored and addressed by.
#[derive(Debug, PartialEq, Eq)]
pub struct ChannelHandle {
    value: String,
}

impl View for ChannelHandle {
    type V = Seq<char>;

    closed spec fn view(&self) -> Seq<char> {
        self.value@
    }
}

impl Clone for ChannelHandle {
    fn clone(&self) -> (r: Self)
        ensures
            r == *self,
    {
        proof {
            use_type_invariant(self);
        }
        ChannelHandle { value: self.value.clone() }
    }
}

impl ChannelHandle {
    /// Every ChannelHandle holds a valid value.
    #[verifier::type_invariant]
    spec fn well_formed(self) -> bool {
        is_channel_handle(self.value@)
    }

    /// The handle `value`, or `None` when it does not start with `@`.
    pub fn new(value: String) -> (r: Option<ChannelHandle>)
        ensures
            r is Some <==> is_channel_handle(value@),
            r matches Some(h) ==> h@ == value@,
    {
        if !value.as_str().is_empty() && value.as_str().get_char(0) == '@' {
            Some(ChannelHandle { value })
        } else {
            None
        }
    }

    pub fn as_str(&self) -> (r: &str)
        ensures
            r@ == self@,
            is_channel_handle(r@),
    {
        proof {
            use_type_invariant(self);
        }
        self.value.as_str()
    }

    pub fn into_string(self) -> (r: String)
        ensures
            r@ == self@,
            is_channel_handle(r@),
    {
        proof {
            use_type_invariant(&self);
        }
        self.value
    }
}

/// The message a value that is not a channel handle is refused with.
pub open spec fn not_a_handle_message(value: Seq<char>) -> Seq<char> {
    "Channel handle must start with \"@\" (got \""@ + value + "\")"@
}

/// The message an empty channel handle or URL is refused with.
pub open spec fn empty_handle_or_url_message() -> Seq<char> {
    "Channel handle or URL must not be empty"@
}

/// The handle a channel handle or channel URL names: for a URL of
/// `https://www.youtube.com/` or `https://youtube.com/`, what follows up to
/// the next `/` or `?`; anything else is taken as the handle itself.
pub open spec fn handle_named_by(value: Seq<char>) -> Seq<char> {
    if "https://www.youtube.com/"@.is_prefix_of(value) {
        before_separator(value.skip("https://www.youtube.com/"@.len() as int))
    } else if "https://youtube.com/"@.is_prefix_of(value) {
        before_separator(value.skip("https://youtube.com/"@.len() as int))
    } else {
        value
    }
}

/// The handle a channel handle or URL names, or the message it is refused
/// with.
pub open spec fn channel_from_url_or_handle(value: Seq<char>) -> Result<Seq<char>, Seq<char>> {
    if value.len() == 0 {
        Err(empty_handle_or_url_message())
    } else if is_channel_handle(handle_named_by(value)) {
        Ok(handle_named_by(value))
    } else {
        Err(not_a_handle_message(handle_named_by(value)))
    }
}

impl ChannelHandle {
    /// The handle `value`, or the message it is refused with when it does
    /// not start with `@`.
    pub fn parse(value: String) -> (r: Result<ChannelHandle, String>)
        ensures
            r is Ok <==> is_channel_handle(value@),
            r matches Ok(h) ==> h@ == value@,
            r matches Err(m) ==> m@ == not_a_handle_message(value@),
    {
        let refused = concat3("Channel handle must start with \"@\" (got \"", value.as_str(), "\")");
        match ChannelHandle::new(value) {
            Some(h) => Ok(h),
            None => Err(refused),
        }
    }

    /// The handle a channel handle or channel URL names, or the message it
    /// is refused with.
    pub fn from_url_or_handle(value: String) -> (r: Result<ChannelHandle, String>)
        ensures
            match channel_from_url_or_handle(value@) {
                Ok(h) => r matches Ok(c) && c@ == h,
                Err(m) => r matches Err(e) && e@ == m,
            },
    {
        if value.as_str().is_empty() {
            return Err("Channel handle or URL must not be empty".to_string());
        }
        proof {
            reveal_strlit("https://www.youtube.com/");
            reveal_strlit("https://youtube.com/");
        }
        let named = if starts_with(value.as_str(), "https://www.youtube.com/") {
            assert("https://www.youtube.com/"@.len() == 24);
            let rest = value.as_str().substring_char(24, value.as_str().unicode_len());
            assert(rest@ =~= value@.skip(24));
            until_separator(rest)
        } else if starts_with(value.as_str(), "https://youtube.com/") {
            assert("https://youtube.com/"@.len() == 20);
            let rest = value.as_str().substring_char(20, value.as_str().unicode_len());
            assert(rest@ =~= value@.skip(20));
            until_separator(rest)
        } else {
            value
        };
        Self::parse(named)
    }
}

/// A tracked channel, as stored.
#[derive(Debug, Clone, PartialEq, Eq)]
pub struct Channel {
    pub id: ChannelHandle,
    pub name: String,
    pub youtube_channel_id: String,
    pub quality: Quality,
    pub video_limit: u32,
    /// Output directory, relative to the videos root.
    pub path: String,
    pub avatar_filename: Option<String>,
    pub created_at: Timestamp,
}

/// A tracked channel as listed, with how many of its downloaded videos are
/// not watched yet.
#[derive(Debug, Clone, PartialEq, Eq)]
pub struct ChannelView {
    pub id: ChannelHandle,
    pub name: String,
    pub path: String,
    pub avatar_filename: Option<String>,
    pub unwatched_count: usize,
}

/// What creating a channel did: stored a new one, or found it tracked
/// already.
#[derive(Debug, Clone, PartialEq, Eq)]
pub enum CreateChannelOutcome {
    Created(Channel),
    AlreadyExisted(Channel),
}

/// Why creating a channel failed: YouTube knows no channel of that handle
/// (the handle), the YouTube lookup failed, or storing it failed (the
/// message of either).
#[derive(Debug, Clone, PartialEq, Eq)]
pub enum CreateChannelError {
    YoutubeChannelNotFound(String),
    Lookup(String),
    Repository(String),
}

/// Why deleting a channel failed: it is not tracked (its handle), or the
/// repository failed (its message).
#[derive(Debug, Clone, PartialEq, Eq)]
pub enum DeleteChannelError {
    NotFound(String),
    Repository(String),
}

/// What a failed channel creation says: that YouTube knows no channel of
/// the handle, or the message of the failed lookup or repository.
pub open spec fn create_channel_error_message(e: CreateChannelError) -> Seq<char> {
    match e {
        CreateChannelError::YoutubeChannelNotFound(h) => "YouTube channel "@ + h@
            + " does not exist or is not accessible"@,
        CreateChannelError::Lookup(m) => m@,
        CreateChannelError::Repository(m) => m@,
    }
}

impl CreateChannelError {
    pub fn message(&self) -> (r: String)
        ensures
            r@ == create_channel_error_message(*self),
    {
        match self {
            CreateChannelError::YoutubeChannelNotFound(h) => concat3(
                "YouTube channel ",
                h.as_str(),
                " does not exist or is not accessible",
            ),
            CreateChannelError::Lookup(m) => m.clone(),
            CreateChannelError::Repository(m) => m.clone(),
        }
    }
}

/// What a failed channel deletion says: that no channel of the handle is
/// tracked, or the message of the failed repository.
pub open spec fn delete_channel_error_message(e: DeleteChannelError) -> Seq<char> {
    match e {
        DeleteChannelError::NotFound(h) => "channel "@ + h@ + " not found"@,
        DeleteChannelError::Repository(m) => m@,
    }
}

impl DeleteChannelError {
    pub fn message(&self) -> (r: String)
        ensures
            r@ == delete_channel_error_message(*self),
    {
        match self {
            DeleteChannelError::NotFound(h) => concat3("channel ", h.as_str(), " not found"),
            DeleteChannelError::Repository(m) => m.clone(),
        }
    }
}

} // verus!
