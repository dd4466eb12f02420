use vstd::prelude::*;

verus! {

/// A unit of work on the task queue, with the payload it carries.
#[derive(Debug, Clone, PartialEq, Eq)]
pub enum Task {
    ReconcilePlaylist { playlist_id: String },
    ReconcileChannel { channel_id: String },
    DownloadVideo { video_id: String, quality: String, output_dir: String },
    DeleteVideoFile {
        filename: Option<String>,
        thumbnail_filename: Option<String>,
        output_dir: String,
    },
    DeletePlaylistFiles { playlist_id: String, path: String },
    DeleteChannelFiles { channel_id: String, path: String },
    UpdateYtdlp,
}

/// A task with its strings taken by their characters.
pub enum TaskView {
    ReconcilePlaylist { playlist_id: Seq<char> },
    ReconcileChannel { channel_id: Seq<char> },
    DownloadVideo { video_id: Seq<char>, quality: Seq<char>, output_dir: Seq<char> },
    DeleteVideoFile {
        filename: Option<Seq<char>>,
        thumbnail_filename: Option<Seq<char>>,
        output_dir: Seq<char>,
    },
    DeletePlaylistFiles { playlist_id: Seq<char>, path: Seq<char> },
    DeleteChannelFiles { channel_id: Seq<char>, path: Seq<char> },
    UpdateYtdlp,
}

/// The characters of an optional string.
pub open spec fn opt_view(s: Option<String>) -> Option<Seq<char>> {
    match s {
        Some(s) => Some(s@),
        None => None,
    }
}

impl View for Task {
    type V = TaskView;

    open spec fn view(&self) -> TaskView {
        match self {
            Task::ReconcilePlaylist { playlist_id } => TaskView::ReconcilePlaylist {
                playlist_id: playlist_id@,
            },
            Task::ReconcileChannel { channel_id } => TaskView::ReconcileChannel {
                channel_id: channel_id@,
            },
            Task::DownloadVideo { video_id, quality, output_dir } => TaskView::DownloadVideo {
                video_id: video_id@,
                quality: quality@,
                output_dir: output_dir@,
            },
            Task::DeleteVideoFile { filename, thumbnail_filename, output_dir } =>
                TaskView::DeleteVideoFile {
                filename: opt_view(*filename),
                thumbnail_filename: opt_view(*thumbnail_filename),
                output_dir: output_dir@,
            },
            Task::DeletePlaylistFiles { playlist_id, path } => TaskView::DeletePlaylistFiles {
                playlist_id: playlist_id@,
                path: path@,
            },
            Task::DeleteChannelFiles { channel_id, path } => TaskView::DeleteChannelFiles {
                channel_id: channel_id@,
                path: path@,
            },
            Task::UpdateYtdlp => TaskView::UpdateYtdlp,
        }
    }
}

/// The kinds of task, one per handler of the task queue.
#[derive(Debug, Clone, Copy, PartialEq, Eq)]
pub enum TaskKind {
    ReconcilePlaylist,
    ReconcileChannel,
    DownloadVideo,
    DeleteVideoFile,
    DeletePlaylistFiles,
    DeleteChannelFiles,
    UpdateYtdlp,
}

impl TaskView {
    pub open spec fn kind(self) -> TaskKind {
        match self {
            TaskView::ReconcilePlaylist { .. } => TaskKind::ReconcilePlaylist,
            TaskView::ReconcileChannel { .. } => TaskKind::ReconcileChannel,
            TaskView::DownloadVideo { .. } => TaskKind::DownloadVideo,
            TaskView::DeleteVideoFile { .. } => TaskKind::DeleteVideoFile,
            TaskView::DeletePlaylistFiles { .. } => TaskKind::DeletePlaylistFiles,
            TaskView::DeleteChannelFiles { .. } => TaskKind::DeleteChannelFiles,
            TaskView::UpdateYtdlp => TaskKind::UpdateYtdlp,
        }
    }
}

/// The task type a kind of task is queued and dispatched under.
pub open spec fn task_type_name(k: TaskKind) -> Seq<char> {
    match k {
        TaskKind::ReconcilePlaylist => "reconcile_playlist"@,
        TaskKind::ReconcileChannel => "reconcile_channel"@,
        TaskKind::DownloadVideo => "download_video"@,
        TaskKind::DeleteVideoFile => "delete_video_file"@,
        TaskKind::DeletePlaylistFiles => "delete_playlist_files"@,
        TaskKind::DeleteChannelFiles => "delete_channel_files"@,
        TaskKind::UpdateYtdlp => "update_ytdlp"@,
    }
}

/// The kind of task queued under the task type `name`, if any.
pub open spec fn task_kind_named(name: Seq<char>) -> Option<TaskKind> {
    if name == "reconcile_playlist"@ {
        Some(TaskKind::ReconcilePlaylist)
    } else if name == "reconcile_channel"@ {
        Some(TaskKind::ReconcileChannel)
    } else if name == "download_video"@ {
        Some(TaskKind::DownloadVideo)
    } else if name == "delete_video_file"@ {
        Some(TaskKind::DeleteVideoFile)
    } else if name == "delete_playlist_files"@ {
        Some(TaskKind::DeletePlaylistFiles)
    } else if name == "delete_channel_files"@ {
        Some(TaskKind::DeleteChannelFiles)
    } else if name == "update_ytdlp"@ {
        Some(TaskKind::UpdateYtdlp)
    } else {
        None
    }
}

impl TaskKind {
    pub fn task_type(&self) -> (r: &'static str)
        ensures
            r@ == task_type_name(*self),
    {
        match self {
            TaskKind::ReconcilePlaylist => "reconcile_playlist",
            TaskKind::ReconcileChannel => "reconcile_channel",
            TaskKind::DownloadVideo => "download_video",
            TaskKind::DeleteVideoFile => "delete_video_file",
            TaskKind::DeletePlaylistFiles => "delete_playlist_files",
            TaskKind::DeleteChannelFiles => "delete_channel_files",
            TaskKind::UpdateYtdlp => "update_ytdlp",
        }
    }

    /// The kind of task queued under the task type `name`; `None` for a
    /// task type no handler runs.
    pub fn for_task_type(name: &str) -> (r: Option<TaskKind>)
        ensures
            r == task_kind_named(name@),
    {
        if super::shared::same_text(name, "reconcile_playlist") {
            Some(TaskKind::ReconcilePlaylist)
        } else if super::shared::same_text(name, "reconcile_channel") {
            Some(TaskKind::ReconcileChannel)
        } else if super::shared::same_text(name, "download_video") {
            Some(TaskKind::DownloadVideo)
        } else if super::shared::same_text(name, "delete_video_file") {
            Some(TaskKind::DeleteVideoFile)
        } else if super::shared::same_text(name, "delete_playlist_files") {
            Some(TaskKind::DeletePlaylistFiles)
        } else if super::shared::same_text(name, "delete_channel_files") {
            Some(TaskKind::DeleteChannelFiles)
        } else if super::shared::same_text(name, "update_ytdlp") {
            Some(TaskKind::UpdateYtdlp)
        } else {
            None
        }
    }
}

impl Task {
    pub fn kind(&self) -> (r: TaskKind)
        ensures
            r == self@.kind(),
    {
        match self {
            Task::ReconcilePlaylist { .. } => TaskKind::ReconcilePlaylist,
            Task::ReconcileChannel { .. } => TaskKind::ReconcileChannel,
            Task::DownloadVideo { .. } => TaskKind::DownloadVideo,
            Task::DeleteVideoFile { .. } => TaskKind::DeleteVideoFile,
            Task::DeletePlaylistFiles { .. } => TaskKind::DeletePlaylistFiles,
            Task::DeleteChannelFiles { .. } => TaskKind::DeleteChannelFiles,
            Task::UpdateYtdlp => TaskKind::UpdateYtdlp,
        }
    }

    /// The name of the handler that runs a task such as `self`.
    pub fn task_type(&self) -> (r: &'static str)
        ensures
            r@ == task_type_name(self@.kind()),
    {
        self.kind().task_type()
    }
}

/// Each task type names exactly one kind of task: reading a kind's task type
/// back gives that kind.
pub proof fn lemma_task_type_round_trip(k: TaskKind)
    ensures
        task_kind_named(task_type_name(k)) == Some(k),
{
    reveal_strlit("reconcile_playlist");
    reveal_strlit("reconcile_channel");
    reveal_strlit("download_video");
    reveal_strlit("delete_video_file");
    reveal_strlit("delete_playlist_files");
    reveal_strlit("delete_channel_files");
    reveal_strlit("update_ytdlp");
    assert("reconcile_playlist"@.len() == 18);
    assert("reconcile_channel"@.len() == 17);
    assert("download_video"@.len() == 14);
    assert("delete_video_file"@.len() == 17);
    assert("delete_playlist_files"@.len() == 21);
    assert("delete_channel_files"@.len() == 20);
    assert("update_ytdlp"@.len() == 12);
    assert("reconcile_channel"@ != "delete_video_file"@) by {
        assert("reconcile_channel"@[0] != "delete_video_file"@[0]);
    }
}

} // verus!
