use vstd::prelude::*;

verus! {

/// The kinds of domain event that subscribers react to.
#[derive(Debug, Clone, Copy, PartialEq, Eq)]
pub enum EventKind {
    PlaylistCreated,
    ChannelCreated,
    VideoAddedToPlaylist,
    VideoAddedToChannel,
    VideoRemovedFromPlaylist,
    VideoRemovedFromChannel,
    PlaylistDeleted,
    ChannelDeleted,
}

/// The event type a kind of event is published under.
pub open spec fn event_type_name(k: EventKind) -> Seq<char> {
    match k {
        EventKind::PlaylistCreated => "playlist_created"@,
        EventKind::ChannelCreated => "channel_created"@,
        EventKind::VideoAddedToPlaylist => "video_added_to_playlist"@,
        EventKind::VideoAddedToChannel => "video_added_to_channel"@,
        EventKind::VideoRemovedFromPlaylist => "video_removed_from_playlist"@,
        EventKind::VideoRemovedFromChannel => "video_removed_from_channel"@,
        EventKind::PlaylistDeleted => "playlist_deleted"@,
        EventKind::ChannelDeleted => "channel_deleted"@,
    }
}

/// The kind of event published under the event type `name`, if any.
pub open spec fn event_kind_named(name: Seq<char>) -> Option<EventKind> {
    if name == "playlist_created"@ {
        Some(EventKind::PlaylistCreated)
    } else if name == "channel_created"@ {
        Some(EventKind::ChannelCreated)
    } else if name == "video_added_to_playlist"@ {
        Some(EventKind::VideoAddedToPlaylist)
    } else if name == "video_added_to_channel"@ {
        Some(EventKind::VideoAddedToChannel)
    } else if name == "video_removed_from_playlist"@ {
        Some(EventKind::VideoRemovedFromPlaylist)
    } else if name == "video_removed_from_channel"@ {
        Some(EventKind::VideoRemovedFromChannel)
    } else if name == "playlist_deleted"@ {
        Some(EventKind::PlaylistDeleted)
    } else if name == "channel_deleted"@ {
        Some(EventKind::ChannelDeleted)
    } else {
        None
    }
}

impl EventKind {
    pub fn event_type(&self) -> (r: &'static str)
        ensures
            r@ == event_type_name(*self),
    {
        match self {
            EventKind::PlaylistCreated => "playlist_created",
            EventKind::ChannelCreated => "channel_created",
            EventKind::VideoAddedToPlaylist => "video_added_to_playlist",
            EventKind::VideoAddedToChannel => "video_added_to_channel",
            EventKind::VideoRemovedFromPlaylist => "video_removed_from_playlist",
            EventKind::VideoRemovedFromChannel => "video_removed_from_channel",
            EventKind::PlaylistDeleted => "playlist_deleted",
            EventKind::ChannelDeleted => "channel_deleted",
        }
    }

    /// The kind of event published under the event type `name`; `None` for
    /// an event type nothing subscribes to.
    pub fn for_event_type(name: &str) -> (r: Option<EventKind>)
        ensures
            r == event_kind_named(name@),
    {
        if super::shared::same_text(name, "playlist_created") {
            Some(EventKind::PlaylistCreated)
        } else if super::shared::same_text(name, "channel_created") {
            Some(EventKind::ChannelCreated)
        } else if super::shared::same_text(name, "video_added_to_playlist") {
            Some(EventKind::VideoAddedToPlaylist)
        } else if super::shared::same_text(name, "video_added_to_channel") {
            Some(EventKind::VideoAddedToChannel)
        } else if super::shared::same_text(name, "video_removed_from_playlist") {
            Some(EventKind::VideoRemovedFromPlaylist)
        } else if super::shared::same_text(name, "video_removed_from_channel") {
            Some(EventKind::VideoRemovedFromChannel)
        } else if super::shared::same_text(name, "playlist_deleted") {
            Some(EventKind::PlaylistDeleted)
        } else if super::shared::same_text(name, "channel_deleted") {
            Some(EventKind::ChannelDeleted)
        } else {
            None
        }
    }
}

/// Each event type names exactly one kind of event: reading a kind's event
/// type back gives that kind.
pub proof fn lemma_event_type_round_trip(k: EventKind)
    ensures
        event_kind_named(event_type_name(k)) == Some(k),
{
    reveal_strlit("playlist_created");
    reveal_strlit("channel_created");
    reveal_strlit("video_added_to_playlist");
    reveal_strlit("video_added_to_channel");
    reveal_strlit("video_removed_from_playlist");
    reveal_strlit("video_removed_from_channel");
    reveal_strlit("playlist_deleted");
    reveal_strlit("channel_deleted");
    assert("playlist_created"@.len() == 16);
    assert("channel_created"@.len() == 15);
    assert("video_added_to_playlist"@.len() == 23);
    assert("video_added_to_channel"@.len() == 22);
    assert("video_removed_from_playlist"@.len() == 27);
    assert("video_removed_from_channel"@.len() == 26);
    assert("playlist_deleted"@.len() == 16);
    assert("channel_deleted"@.len() == 15);
    assert("playlist_created"@ != "playlist_deleted"@) by {
        assert("playlist_created"@[9] != "playlist_deleted"@[9]);
    }
    assert("channel_created"@ != "channel_deleted"@) by {
        assert("channel_created"@[8] != "channel_deleted"@[8]);
    }
}

} // verus!
