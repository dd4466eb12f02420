pub mod delete_channel_files_task;
pub mod delete_playlist_files_task;
pub mod delete_video_file_task;
pub mod download_video_task;
pub mod reconcile_channel_task;
pub mod reconcile_playlist_task;
pub mod update_ytdlp_task;

use crate::domain::task::{
    lemma_task_type_round_trip, task_kind_named, task_type_name, TaskKind, TaskView,
};
use delete_channel_files_task::DeleteChannelFilesTask;
use delete_playlist_files_task::DeletePlaylistFilesTask;
use delete_video_file_task::DeleteVideoFileTask;
use download_video_task::DownloadVideoTask;
use reconcile_channel_task::ReconcileChannelTask;
use reconcile_playlist_task::ReconcilePlaylistTask;
use update_ytdlp_task::UpdateYtdlpTask;
use vstd::prelude::*;

verus! {

/// A task handler, of any of the kinds the registry builds.
pub enum Handler<PR, CR, VD, FD, TR, CL, U> {
    ReconcilePlaylist(ReconcilePlaylistTask<PR>),
    ReconcileChannel(ReconcileChannelTask<CR>),
    DownloadVideo(DownloadVideoTask<VD>),
    DeleteVideoFile(DeleteVideoFileTask<FD>),
    DeletePlaylistFiles(DeletePlaylistFilesTask<FD>),
    DeleteChannelFiles(DeleteChannelFilesTask<FD>),
    UpdateYtdlp(UpdateYtdlpTask<U, TR, CL>),
}

impl<PR, CR, VD, FD, TR, CL, U> Handler<PR, CR, VD, FD, TR, CL, U> {
    /// The kind of task this handler runs.
    pub open spec fn kind(&self) -> TaskKind {
        match self {
            Handler::ReconcilePlaylist(_) => TaskKind::ReconcilePlaylist,
            Handler::ReconcileChannel(_) => TaskKind::ReconcileChannel,
            Handler::DownloadVideo(_) => TaskKind::DownloadVideo,
            Handler::DeleteVideoFile(_) => TaskKind::DeleteVideoFile,
            Handler::DeletePlaylistFiles(_) => TaskKind::DeletePlaylistFiles,
            Handler::DeleteChannelFiles(_) => TaskKind::DeleteChannelFiles,
            Handler::UpdateYtdlp(_) => TaskKind::UpdateYtdlp,
        }
    }
}

/// `h` was built from the registry's arguments: each handler holds the
/// service handed in, the three file handlers each a clone of the file
/// deleter handed in.
pub open spec fn built_from<PR, CR, VD, FD: Clone, TR, CL, U>(
    h: Handler<PR, CR, VD, FD, TR, CL, U>,
    playlist_video_reconciler: PR,
    channel_video_reconciler: CR,
    video_downloader: VD,
    video_file_deleter: FD,
    task_repository: TR,
    clock: CL,
    ytdlp_updater: U,
    ytdlp_path: Seq<char>,
) -> bool {
    match h {
        Handler::ReconcilePlaylist(x) => x.playlist_video_reconciler == playlist_video_reconciler,
        Handler::ReconcileChannel(x) => x.channel_video_reconciler == channel_video_reconciler,
        Handler::DownloadVideo(x) => x.video_downloader == video_downloader,
        Handler::DeleteVideoFile(x) => cloned(video_file_deleter, x.video_file_deleter),
        Handler::DeletePlaylistFiles(x) => cloned(video_file_deleter, x.video_file_deleter),
        Handler::DeleteChannelFiles(x) => cloned(video_file_deleter, x.video_file_deleter),
        Handler::UpdateYtdlp(x) => {
            &&& x.updater == ytdlp_updater
            &&& x.ytdlp_path@ == ytdlp_path
            &&& x.task_repository == task_repository
            &&& x.clock == clock
        },
    }
}

/// The registry `r` maps task types to handlers as the queue requires: each
/// entry holds the handler of the kind of task queued under its type, every
/// task type has an entry, and no task type has two.
pub open spec fn maps_each_task_type<H>(r: Seq<(String, H)>, kind_of: spec_fn(H) -> TaskKind) -> bool {
    &&& forall|i: int|
        0 <= i < r.len() ==> (#[trigger] r[i]).0@ == task_type_name(kind_of(r[i].1))
            && task_kind_named(r[i].0@) == Some(kind_of(r[i].1))
    &&& forall|k: TaskKind|
        #![trigger task_type_name(k)]
        exists|i: int| 0 <= i < r.len() && (#[trigger] r[i]).0@ == task_type_name(k)
    &&& forall|i: int, j: int| 0 <= i < j < r.len() ==> (#[trigger] r[i]).0@ != (#[trigger] r[j]).0@
}

fn entry<PR, CR, VD, FD, TR, CL, U>(h: Handler<PR, CR, VD, FD, TR, CL, U>) -> (r: (
    String,
    Handler<PR, CR, VD, FD, TR, CL, U>,
))
    ensures
        r.0@ == task_type_name(r.1.kind()),
        r.1 == h,
{
    let k = match &h {
        Handler::ReconcilePlaylist(_) => TaskKind::ReconcilePlaylist,
        Handler::ReconcileChannel(_) => TaskKind::ReconcileChannel,
        Handler::DownloadVideo(_) => TaskKind::DownloadVideo,
        Handler::DeleteVideoFile(_) => TaskKind::DeleteVideoFile,
        Handler::DeletePlaylistFiles(_) => TaskKind::DeletePlaylistFiles,
        Handler::DeleteChannelFiles(_) => TaskKind::DeleteChannelFiles,
        Handler::UpdateYtdlp(_) => TaskKind::UpdateYtdlp,
    };
    (k.task_type().to_string(), h)
}

/// Builds the handler of every task type, keyed by that type.
pub fn registry<PR, CR, VD, FD: Clone, TR, CL, U>(
    playlist_video_reconciler: PR,
    channel_video_reconciler: CR,
    video_downloader: VD,
    video_file_deleter: FD,
    task_repository: TR,
    clock: CL,
    ytdlp_updater: U,
    ytdlp_path: String,
) -> (r: Vec<(String, Handler<PR, CR, VD, FD, TR, CL, U>)>)
    ensures
        maps_each_task_type(r@, |h: Handler<PR, CR, VD, FD, TR, CL, U>| h.kind()),
        forall|i: int|
            #![trigger r@[i]]
            0 <= i < r.len() ==> built_from(
                r@[i].1,
                playlist_video_reconciler,
                channel_video_reconciler,
                video_downloader,
                video_file_deleter,
                task_repository,
                clock,
                ytdlp_updater,
                ytdlp_path@,
            ),
{
    let ghost (pvr, cvr, vd, fd, tr, cl, u, yp) = (
        playlist_video_reconciler,
        channel_video_reconciler,
        video_downloader,
        video_file_deleter,
        task_repository,
        clock,
        ytdlp_updater,
        ytdlp_path@,
    );
    let h0 = Handler::ReconcilePlaylist(ReconcilePlaylistTask::new(playlist_video_reconciler));
    let h1 = Handler::ReconcileChannel(ReconcileChannelTask::new(channel_video_reconciler));
    let h2 = Handler::DownloadVideo(DownloadVideoTask::new(video_downloader));
    let h3 = Handler::DeleteVideoFile(DeleteVideoFileTask::new(video_file_deleter.clone()));
    let h4 = Handler::DeletePlaylistFiles(DeletePlaylistFilesTask::new(video_file_deleter.clone()));
    let h5 = Handler::DeleteChannelFiles(DeleteChannelFilesTask::new(video_file_deleter));
    let h6 = Handler::UpdateYtdlp(
        UpdateYtdlpTask::new(ytdlp_updater, ytdlp_path, task_repository, clock),
    );
    let ghost hs = seq![h0, h1, h2, h3, h4, h5, h6];
    assert forall|i: int| 0 <= i < 7 implies built_from(
        #[trigger] hs[i],
        pvr,
        cvr,
        vd,
        fd,
        tr,
        cl,
        u,
        yp,
    ) by {}
    let mut r = Vec::new();
    r.push(entry(h0));
    r.push(entry(h1));
    r.push(entry(h2));
    r.push(entry(h3));
    r.push(entry(h4));
    r.push(entry(h5));
    r.push(entry(h6));
    proof {
        let kinds = seq![
            TaskKind::ReconcilePlaylist,
            TaskKind::ReconcileChannel,
            TaskKind::DownloadVideo,
            TaskKind::DeleteVideoFile,
            TaskKind::DeletePlaylistFiles,
            TaskKind::DeleteChannelFiles,
            TaskKind::UpdateYtdlp,
        ];
        assert forall|i: int| 0 <= i < 7 implies (#[trigger] r@[i]).1 == hs[i] && hs[i].kind()
            == kinds[i] && r@[i].0@ == task_type_name(kinds[i]) by {}
        assert forall|k: TaskKind| #[trigger] task_kind_named(task_type_name(k)) == Some(k) by {
            lemma_task_type_round_trip(k);
        }
        assert forall|i: int| 0 <= i < r.len() implies (#[trigger] r@[i]).0@ == task_type_name(
            r@[i].1.kind(),
        ) && task_kind_named(r@[i].0@) == Some(r@[i].1.kind()) by {
            assert(task_kind_named(task_type_name(kinds[i])) == Some(kinds[i]));
        }
        assert forall|k: TaskKind|
            #![trigger task_type_name(k)]
            exists|i: int| 0 <= i < r.len() && (#[trigger] r@[i]).0@ == task_type_name(k) by {
            let i: int = match k {
                TaskKind::ReconcilePlaylist => 0,
                TaskKind::ReconcileChannel => 1,
                TaskKind::DownloadVideo => 2,
                TaskKind::DeleteVideoFile => 3,
                TaskKind::DeletePlaylistFiles => 4,
                TaskKind::DeleteChannelFiles => 5,
                TaskKind::UpdateYtdlp => 6,
            };
            assert(r@[i].0@ == task_type_name(k));
        }
        assert forall|i: int, j: int| 0 <= i < j < r.len() implies (#[trigger] r@[i]).0@
            != (#[trigger] r@[j]).0@ by {
            assert(task_kind_named(task_type_name(kinds[i])) == Some(kinds[i]));
            assert(task_kind_named(task_type_name(kinds[j])) == Some(kinds[j]));
        }
    }
    r
}

/// Every task that can be queued is run by the handler of its own kind: the
/// registry finds that handler under the task's type.
pub proof fn lemma_every_task_has_its_handler(t: TaskView)
    ensures
        task_kind_named(task_type_name(t.kind())) == Some(t.kind()),
{
    lemma_task_type_round_trip(t.kind());
}

} // verus!
