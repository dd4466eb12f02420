pub mod delete_channel_files_on_channel_deleted;
pub mod delete_playlist_files_on_playlist_deleted;
pub mod delete_video_file_on_video_removed_from_channel;
pub mod delete_video_file_on_video_removed_from_playlist;
pub mod download_video_on_video_added_to_channel;
pub mod download_video_on_video_added_to_playlist;
pub mod reconcile_on_channel_created;
pub mod reconcile_on_playlist_created;

use crate::domain::event::{
    event_kind_named, event_type_name, lemma_event_type_round_trip, EventKind,
};
use crate::domain::shared::{lemma_quality_name_round_trip, quality_name, quality_named, Quality};
use delete_channel_files_on_channel_deleted::DeleteChannelFilesOnChannelDeleted;
use delete_playlist_files_on_playlist_deleted::DeletePlaylistFilesOnPlaylistDeleted;
use delete_video_file_on_video_removed_from_channel::DeleteVideoFileOnVideoRemovedFromChannel;
use delete_video_file_on_video_removed_from_playlist::DeleteVideoFileOnVideoRemovedFromPlaylist;
use download_video_on_video_added_to_channel::DownloadVideoOnVideoAddedToChannel;
use download_video_on_video_added_to_playlist::DownloadVideoOnVideoAddedToPlaylist;
use reconcile_on_channel_created::ReconcileOnChannelCreated;
use reconcile_on_playlist_created::ReconcileOnPlaylistCreated;
use crate::domain::task::{opt_view, Task, TaskView};
use crate::paths::{join_path, joined};
use vstd::prelude::*;

verus! {

/// The subscribers that react to domain events.
#[derive(Debug, Clone, Copy, PartialEq, Eq)]
pub enum SubscriberKind {
    ReconcileOnPlaylistCreated,
    ReconcileOnChannelCreated,
    DownloadVideoOnVideoAddedToPlaylist,
    DownloadVideoOnVideoAddedToChannel,
    DeleteVideoFileOnVideoRemovedFromPlaylist,
    DeleteVideoFileOnVideoRemovedFromChannel,
    DeletePlaylistFilesOnPlaylistDeleted,
    DeleteChannelFilesOnChannelDeleted,
}

/// The subscriber that reacts to a kind of event.
pub open spec fn subscriber_of(k: EventKind) -> SubscriberKind {
    match k {
        EventKind::PlaylistCreated => SubscriberKind::ReconcileOnPlaylistCreated,
        EventKind::ChannelCreated => SubscriberKind::ReconcileOnChannelCreated,
        EventKind::VideoAddedToPlaylist => SubscriberKind::DownloadVideoOnVideoAddedToPlaylist,
        EventKind::VideoAddedToChannel => SubscriberKind::DownloadVideoOnVideoAddedToChannel,
        EventKind::VideoRemovedFromPlaylist =>
            SubscriberKind::DeleteVideoFileOnVideoRemovedFromPlaylist,
        EventKind::VideoRemovedFromChannel =>
            SubscriberKind::DeleteVideoFileOnVideoRemovedFromChannel,
        EventKind::PlaylistDeleted => SubscriberKind::DeletePlaylistFilesOnPlaylistDeleted,
        EventKind::ChannelDeleted => SubscriberKind::DeleteChannelFilesOnChannelDeleted,
    }
}

/// The kind of event a subscriber reacts to.
pub open spec fn event_of(s: SubscriberKind) -> EventKind {
    match s {
        SubscriberKind::ReconcileOnPlaylistCreated => EventKind::PlaylistCreated,
        SubscriberKind::ReconcileOnChannelCreated => EventKind::ChannelCreated,
        SubscriberKind::DownloadVideoOnVideoAddedToPlaylist => EventKind::VideoAddedToPlaylist,
        SubscriberKind::DownloadVideoOnVideoAddedToChannel => EventKind::VideoAddedToChannel,
        SubscriberKind::DeleteVideoFileOnVideoRemovedFromPlaylist =>
            EventKind::VideoRemovedFromPlaylist,
        SubscriberKind::DeleteVideoFileOnVideoRemovedFromChannel =>
            EventKind::VideoRemovedFromChannel,
        SubscriberKind::DeletePlaylistFilesOnPlaylistDeleted => EventKind::PlaylistDeleted,
        SubscriberKind::DeleteChannelFilesOnChannelDeleted => EventKind::ChannelDeleted,
    }
}

impl SubscriberKind {
    /// The kind of event this subscriber reacts to.
    pub fn event(&self) -> (r: EventKind)
        ensures
            r == event_of(*self),
    {
        match self {
            SubscriberKind::ReconcileOnPlaylistCreated => EventKind::PlaylistCreated,
            SubscriberKind::ReconcileOnChannelCreated => EventKind::ChannelCreated,
            SubscriberKind::DownloadVideoOnVideoAddedToPlaylist => EventKind::VideoAddedToPlaylist,
            SubscriberKind::DownloadVideoOnVideoAddedToChannel => EventKind::VideoAddedToChannel,
            SubscriberKind::DeleteVideoFileOnVideoRemovedFromPlaylist =>
                EventKind::VideoRemovedFromPlaylist,
            SubscriberKind::DeleteVideoFileOnVideoRemovedFromChannel =>
                EventKind::VideoRemovedFromChannel,
            SubscriberKind::DeletePlaylistFilesOnPlaylistDeleted => EventKind::PlaylistDeleted,
            SubscriberKind::DeleteChannelFilesOnChannelDeleted => EventKind::ChannelDeleted,
        }
    }
}

/// The subscribers registered for the event type `event_type`, in the
/// order they run.
pub open spec fn subscribers_of(event_type: Seq<char>) -> Seq<SubscriberKind> {
    match event_kind_named(event_type) {
        Some(k) => seq![subscriber_of(k)],
        None => seq![],
    }
}

/// The subscribers registered for an event type, as the registry maps it.
pub fn subscribers_for(event_type: &str) -> (r: Vec<SubscriberKind>)
    ensures
        r@ == subscribers_of(event_type@),
{
    match EventKind::for_event_type(event_type) {
        None => Vec::new(),
        Some(k) => {
            let s = match k {
                EventKind::PlaylistCreated => SubscriberKind::ReconcileOnPlaylistCreated,
                EventKind::ChannelCreated => SubscriberKind::ReconcileOnChannelCreated,
                EventKind::VideoAddedToPlaylist =>
                    SubscriberKind::DownloadVideoOnVideoAddedToPlaylist,
                EventKind::VideoAddedToChannel =>
                    SubscriberKind::DownloadVideoOnVideoAddedToChannel,
                EventKind::VideoRemovedFromPlaylist =>
                    SubscriberKind::DeleteVideoFileOnVideoRemovedFromPlaylist,
                EventKind::VideoRemovedFromChannel =>
                    SubscriberKind::DeleteVideoFileOnVideoRemovedFromChannel,
                EventKind::PlaylistDeleted => SubscriberKind::DeletePlaylistFilesOnPlaylistDeleted,
                EventKind::ChannelDeleted => SubscriberKind::DeleteChannelFilesOnChannelDeleted,
            };
            let mut v = Vec::new();
            v.push(s);
            proof {
                assert(v@ =~= seq![subscriber_of(k)]);
            }
            v
        },
    }
}

/// Every subscriber is registered under exactly one event type, its own
/// event's, and is the only subscriber registered there.
pub proof fn lemma_each_subscriber_registered_once(s: SubscriberKind, event_type: Seq<char>)
    ensures
        subscribers_of(event_type_name(event_of(s))) == seq![s],
        subscribers_of(event_type).contains(s) ==> event_type == event_type_name(event_of(s)),
{
    lemma_event_type_round_trip(event_of(s));
    if subscribers_of(event_type).contains(s) {
        let k = event_kind_named(event_type)->0;
        assert(subscribers_of(event_type)[0] == subscriber_of(k));
        assert(event_type == event_type_name(k));
    }
}

/// A subscriber, of any of the kinds the registry builds.
pub enum Subscriber<PR, CR, PRepo, CRepo, TR, CL> {
    ReconcileOnPlaylistCreated(ReconcileOnPlaylistCreated<PR>),
    ReconcileOnChannelCreated(ReconcileOnChannelCreated<CR>),
    DownloadVideoOnVideoAddedToPlaylist(DownloadVideoOnVideoAddedToPlaylist<PRepo, TR, CL>),
    DownloadVideoOnVideoAddedToChannel(DownloadVideoOnVideoAddedToChannel<CRepo, TR, CL>),
    DeleteVideoFileOnVideoRemovedFromPlaylist(DeleteVideoFileOnVideoRemovedFromPlaylist<PRepo, TR, CL>),
    DeleteVideoFileOnVideoRemovedFromChannel(DeleteVideoFileOnVideoRemovedFromChannel<CRepo, TR, CL>),
    DeletePlaylistFilesOnPlaylistDeleted(DeletePlaylistFilesOnPlaylistDeleted<TR, CL>),
    DeleteChannelFilesOnChannelDeleted(DeleteChannelFilesOnChannelDeleted<TR, CL>),
}

impl<PR, CR, PRepo, CRepo, TR, CL> Subscriber<PR, CR, PRepo, CRepo, TR, CL> {
    /// Which subscriber this is.
    pub open spec fn kind(&self) -> SubscriberKind {
        match self {
            Subscriber::ReconcileOnPlaylistCreated(_) => SubscriberKind::ReconcileOnPlaylistCreated,
            Subscriber::ReconcileOnChannelCreated(_) => SubscriberKind::ReconcileOnChannelCreated,
            Subscriber::DownloadVideoOnVideoAddedToPlaylist(_) =>
                SubscriberKind::DownloadVideoOnVideoAddedToPlaylist,
            Subscriber::DownloadVideoOnVideoAddedToChannel(_) =>
                SubscriberKind::DownloadVideoOnVideoAddedToChannel,
            Subscriber::DeleteVideoFileOnVideoRemovedFromPlaylist(_) =>
                SubscriberKind::DeleteVideoFileOnVideoRemovedFromPlaylist,
            Subscriber::DeleteVideoFileOnVideoRemovedFromChannel(_) =>
                SubscriberKind::DeleteVideoFileOnVideoRemovedFromChannel,
            Subscriber::DeletePlaylistFilesOnPlaylistDeleted(_) =>
                SubscriberKind::DeletePlaylistFilesOnPlaylistDeleted,
            Subscriber::DeleteChannelFilesOnChannelDeleted(_) =>
                SubscriberKind::DeleteChannelFilesOnChannelDeleted,
        }
    }
}

/// `s` was built from the registry's arguments: each reconciler is the one
/// handed in, each repository, task queue and clock a clone of the one handed
/// in, and each videos root the one handed in.
pub open spec fn built_from<PR, CR, PRepo: Clone, CRepo: Clone, TR: Clone, CL: Clone>(
    s: Subscriber<PR, CR, PRepo, CRepo, TR, CL>,
    playlist_video_reconciler: PR,
    channel_video_reconciler: CR,
    playlist_repository: PRepo,
    channel_repository: CRepo,
    task_repository: TR,
    clock: CL,
    videos_path: Seq<char>,
) -> bool {
    match s {
        Subscriber::ReconcileOnPlaylistCreated(x) => x.playlist_video_reconciler
            == playlist_video_reconciler,
        Subscriber::ReconcileOnChannelCreated(x) => x.channel_video_reconciler
            == channel_video_reconciler,
        Subscriber::DownloadVideoOnVideoAddedToPlaylist(x) => {
            &&& cloned(playlist_repository, x.playlist_repository)
            &&& cloned(task_repository, x.task_repository)
            &&& cloned(clock, x.clock)
            &&& x.videos_path@ == videos_path
        },
        Subscriber::DownloadVideoOnVideoAddedToChannel(x) => {
            &&& cloned(channel_repository, x.channel_repository)
            &&& cloned(task_repository, x.task_repository)
            &&& cloned(clock, x.clock)
            &&& x.videos_path@ == videos_path
        },
        Subscriber::DeleteVideoFileOnVideoRemovedFromPlaylist(x) => {
            &&& cloned(playlist_repository, x.playlist_repository)
            &&& cloned(task_repository, x.task_repository)
            &&& cloned(clock, x.clock)
            &&& x.videos_path@ == videos_path
        },
        Subscriber::DeleteVideoFileOnVideoRemovedFromChannel(x) => {
            &&& cloned(channel_repository, x.channel_repository)
            &&& cloned(task_repository, x.task_repository)
            &&& cloned(clock, x.clock)
            &&& x.videos_path@ == videos_path
        },
        Subscriber::DeletePlaylistFilesOnPlaylistDeleted(x) => {
            &&& cloned(task_repository, x.task_repository)
            &&& cloned(clock, x.clock)
        },
        Subscriber::DeleteChannelFilesOnChannelDeleted(x) => {
            &&& cloned(task_repository, x.task_repository)
            &&& cloned(clock, x.clock)
        },
    }
}

/// The registry `r` maps event types to subscribers as the events require:
/// each entry's subscribers are exactly the one subscriber of its event type,
/// every event type has an entry, and no event type has two.
pub open spec fn maps_each_event_type<S>(
    r: Seq<(String, Vec<S>)>,
    kind_of: spec_fn(S) -> SubscriberKind,
) -> bool {
    &&& forall|i: int|
        0 <= i < r.len() ==> {
            &&& (#[trigger] r[i]).1.len() == 1
            &&& r[i].0@ == event_type_name(event_of(kind_of(r[i].1[0])))
            &&& subscribers_of(r[i].0@) == seq![kind_of(r[i].1[0])]
        }
    &&& forall|k: EventKind|
        #![trigger event_type_name(k)]
        exists|i: int| 0 <= i < r.len() && (#[trigger] r[i]).0@ == event_type_name(k)
    &&& forall|i: int, j: int| 0 <= i < j < r.len() ==> (#[trigger] r[i]).0@ != (#[trigger] r[j]).0@
}

fn entry<PR, CR, PRepo, CRepo, TR, CL>(s: Subscriber<PR, CR, PRepo, CRepo, TR, CL>) -> (r: (
    String,
    Vec<Subscriber<PR, CR, PRepo, CRepo, TR, CL>>,
))
    ensures
        r.0@ == event_type_name(event_of(s.kind())),
        r.1@ == seq![s],
{
    let k = match &s {
        Subscriber::ReconcileOnPlaylistCreated(_) => EventKind::PlaylistCreated,
        Subscriber::ReconcileOnChannelCreated(_) => EventKind::ChannelCreated,
        Subscriber::DownloadVideoOnVideoAddedToPlaylist(_) => EventKind::VideoAddedToPlaylist,
        Subscriber::DownloadVideoOnVideoAddedToChannel(_) => EventKind::VideoAddedToChannel,
        Subscriber::DeleteVideoFileOnVideoRemovedFromPlaylist(_) =>
            EventKind::VideoRemovedFromPlaylist,
        Subscriber::DeleteVideoFileOnVideoRemovedFromChannel(_) =>
            EventKind::VideoRemovedFromChannel,
        Subscriber::DeletePlaylistFilesOnPlaylistDeleted(_) => EventKind::PlaylistDeleted,
        Subscriber::DeleteChannelFilesOnChannelDeleted(_) => EventKind::ChannelDeleted,
    };
    let mut v = Vec::new();
    v.push(s);
    proof {
        assert(v@ =~= seq![s]);
    }
    (k.event_type().to_string(), v)
}

/// Builds every subscriber, keyed by the event type it reacts to; the ones
/// that resolve an output directory do so under the videos root
/// `videos_path`.
pub fn registry<PR, CR, PRepo: Clone, CRepo: Clone, TR: Clone, CL: Clone>(
    playlist_video_reconciler: PR,
    channel_video_reconciler: CR,
    playlist_repository: PRepo,
    channel_repository: CRepo,
    task_repository: TR,
    clock: CL,
    videos_path: String,
) -> (r: Vec<(String, Vec<Subscriber<PR, CR, PRepo, CRepo, TR, CL>>)>)
    ensures
        maps_each_event_type(r@, |s: Subscriber<PR, CR, PRepo, CRepo, TR, CL>| s.kind()),
        forall|i: int|
            #![trigger r@[i]]
            0 <= i < r.len() ==> built_from(
                r@[i].1[0],
                playlist_video_reconciler,
                channel_video_reconciler,
                playlist_repository,
                channel_repository,
                task_repository,
                clock,
                videos_path@,
            ),
{
    let ghost (pvr, cvr, pr, cr, tr, cl, vp) = (
        playlist_video_reconciler,
        channel_video_reconciler,
        playlist_repository,
        channel_repository,
        task_repository,
        clock,
        videos_path@,
    );
    let s0 = Subscriber::ReconcileOnPlaylistCreated(
        ReconcileOnPlaylistCreated::new(playlist_video_reconciler),
    );
    let s1 = Subscriber::ReconcileOnChannelCreated(
        ReconcileOnChannelCreated::new(channel_video_reconciler),
    );
    let s2 = Subscriber::DownloadVideoOnVideoAddedToPlaylist(
        DownloadVideoOnVideoAddedToPlaylist::new(
            playlist_repository.clone(),
            task_repository.clone(),
            clock.clone(),
            videos_path.clone(),
        ),
    );
    let s3 = Subscriber::DownloadVideoOnVideoAddedToChannel(
        DownloadVideoOnVideoAddedToChannel::new(
            channel_repository.clone(),
            task_repository.clone(),
            clock.clone(),
            videos_path.clone(),
        ),
    );
    let s4 = Subscriber::DeleteVideoFileOnVideoRemovedFromPlaylist(
        DeleteVideoFileOnVideoRemovedFromPlaylist::new(
            playlist_repository,
            task_repository.clone(),
            clock.clone(),
            videos_path.clone(),
        ),
    );
    let s5 = Subscriber::DeleteVideoFileOnVideoRemovedFromChannel(
        DeleteVideoFileOnVideoRemovedFromChannel::new(
            channel_repository,
            task_repository.clone(),
            clock.clone(),
            videos_path,
        ),
    );
    let s6 = Subscriber::DeletePlaylistFilesOnPlaylistDeleted(
        DeletePlaylistFilesOnPlaylistDeleted::new(task_repository.clone(), clock.clone()),
    );
    let s7 = Subscriber::DeleteChannelFilesOnChannelDeleted(
        DeleteChannelFilesOnChannelDeleted::new(task_repository, clock),
    );
    let ghost subs = seq![s0, s1, s2, s3, s4, s5, s6, s7];
    assert forall|i: int| 0 <= i < 8 implies built_from(
        #[trigger] subs[i],
        pvr,
        cvr,
        pr,
        cr,
        tr,
        cl,
        vp,
    ) by {}
    let mut r = Vec::new();
    r.push(entry(s0));
    r.push(entry(s1));
    r.push(entry(s2));
    r.push(entry(s3));
    r.push(entry(s4));
    r.push(entry(s5));
    r.push(entry(s6));
    r.push(entry(s7));
    proof {
        let kinds = seq![
            EventKind::PlaylistCreated,
            EventKind::ChannelCreated,
            EventKind::VideoAddedToPlaylist,
            EventKind::VideoAddedToChannel,
            EventKind::VideoRemovedFromPlaylist,
            EventKind::VideoRemovedFromChannel,
            EventKind::PlaylistDeleted,
            EventKind::ChannelDeleted,
        ];
        assert forall|i: int| 0 <= i < 8 implies (#[trigger] r@[i]).0@ == event_type_name(kinds[i])
            && r@[i].1@ == seq![subs[i]] && subs[i].kind() == subscriber_of(kinds[i]) by {}
        assert forall|k: EventKind| #[trigger] event_kind_named(event_type_name(k)) == Some(k) by {
            lemma_event_type_round_trip(k);
        }
        assert forall|i: int| 0 <= i < r.len() implies {
            &&& (#[trigger] r@[i]).1.len() == 1
            &&& r@[i].0@ == event_type_name(event_of(r@[i].1[0].kind()))
            &&& subscribers_of(r@[i].0@) == seq![r@[i].1[0].kind()]
        } by {
            assert(event_kind_named(event_type_name(kinds[i])) == Some(kinds[i]));
        }
        assert forall|k: EventKind|
            #![trigger event_type_name(k)]
            exists|i: int| 0 <= i < r.len() && (#[trigger] r@[i]).0@ == event_type_name(k) by {
            let i: int = match k {
                EventKind::PlaylistCreated => 0,
                EventKind::ChannelCreated => 1,
                EventKind::VideoAddedToPlaylist => 2,
                EventKind::VideoAddedToChannel => 3,
                EventKind::VideoRemovedFromPlaylist => 4,
                EventKind::VideoRemovedFromChannel => 5,
                EventKind::PlaylistDeleted => 6,
                EventKind::ChannelDeleted => 7,
            };
            assert(r@[i].0@ == event_type_name(k));
        }
        assert forall|i: int, j: int| 0 <= i < j < r.len() implies (#[trigger] r@[i]).0@
            != (#[trigger] r@[j]).0@ by {
            assert(event_kind_named(event_type_name(kinds[i])) == Some(kinds[i]));
            assert(event_kind_named(event_type_name(kinds[j])) == Some(kinds[j]));
        }
    }
    r
}

/// The download of `video_id` at `quality` into the container directory
/// `container_path` under the videos root `videos_path`.
pub open spec fn download_video_task_view(
    videos_path: Seq<char>,
    video_id: Seq<char>,
    quality: Quality,
    container_path: Seq<char>,
) -> TaskView {
    TaskView::DownloadVideo {
        video_id,
        quality: quality_name(quality),
        output_dir: joined(videos_path, container_path),
    }
}

/// The deletion of a removed video's files from the container directory
/// `container_path` under the videos root `videos_path`.
pub open spec fn delete_video_file_task_view(
    videos_path: Seq<char>,
    filename: Option<Seq<char>>,
    thumbnail_filename: Option<Seq<char>>,
    container_path: Seq<char>,
) -> TaskView {
    TaskView::DeleteVideoFile {
        filename,
        thumbnail_filename,
        output_dir: joined(videos_path, container_path),
    }
}

/// A download scheduled for a container's video runs at the container's
/// quality: the quality it carries names that quality back, so the
/// `DownloadVideoTask` reads it as the container's own.
pub proof fn lemma_scheduled_download_runs_at_container_quality(
    videos_path: Seq<char>,
    video_id: Seq<char>,
    quality: Quality,
    container_path: Seq<char>,
)
    ensures
        download_video_task_view(videos_path, video_id, quality, container_path) matches
            TaskView::DownloadVideo { quality: named, .. } && quality_named(named) == Some(quality),
{
    lemma_quality_name_round_trip(quality);
}

fn download_video_task(
    videos_path: &str,
    video_id: String,
    quality: Quality,
    container_path: &str,
) -> (t: Task)
    ensures
        t@ == download_video_task_view(videos_path@, video_id@, quality, container_path@),
{
    Task::DownloadVideo {
        video_id,
        quality: quality.as_str().to_string(),
        output_dir: join_path(videos_path, container_path),
    }
}

fn delete_video_file_task(
    videos_path: &str,
    filename: Option<String>,
    thumbnail_filename: Option<String>,
    container_path: &str,
) -> (t: Task)
    ensures
        t@ == delete_video_file_task_view(
            videos_path@,
            opt_view(filename),
            opt_view(thumbnail_filename),
            container_path@,
        ),
{
    Task::DeleteVideoFile {
        filename,
        thumbnail_filename,
        output_dir: join_path(videos_path, container_path),
    }
}

} // verus!
