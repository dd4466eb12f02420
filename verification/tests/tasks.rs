use yarrtube::domain::shared::{Quality, Timestamp};
use yarrtube::domain::task::{Task, TaskKind};
use yarrtube::paths::join_path;
use yarrtube::tasks::delete_channel_files_task::DeleteChannelFilesTask;
use yarrtube::tasks::delete_playlist_files_task::DeletePlaylistFilesTask;
use yarrtube::tasks::delete_video_file_task::{DeleteVideoFileTask, VideoFileDeletion};
use yarrtube::tasks::download_video_task::DownloadVideoTask;
use yarrtube::tasks::reconcile_channel_task::ReconcileChannelTask;
use yarrtube::tasks::reconcile_playlist_task::ReconcilePlaylistTask;
use yarrtube::tasks::{registry, Handler};
use yarrtube::tasks::update_ytdlp_task::{
    UpdateYtdlpAction, UpdateYtdlpEvent, UpdateYtdlpTask, UPDATE_INTERVAL_SECONDS,
};

fn fixed_timestamp() -> Timestamp {
    Timestamp { secs: 1_700_000_000, nanos: 0 }
}

#[test]
fn it_should_delete_the_channel_directory() {
    let task = DeleteChannelFilesTask::new("/videos");

    let deletion = task.deletion("@somechannel".to_string(), "creators/somechannel".to_string());

    let (channel_id, path) = deletion.unwrap();
    assert_eq!(channel_id.as_str(), "@somechannel");
    assert_eq!(join_path(task.video_file_deleter, &path), "/videos/creators/somechannel");
}

#[test]
fn delete_channel_files_task_it_should_skip_if_invalid_channel_id_provided() {
    let task = DeleteChannelFilesTask::new("/videos");

    let deletion = task.deletion("".to_string(), "creators/somechannel".to_string());

    assert_eq!(deletion, None);
}

#[test]
fn it_should_delete_the_playlist_directory() {
    let task = DeletePlaylistFilesTask::new("/videos");

    let deletion = task.deletion("PL1".to_string(), "music/chill".to_string());

    let (playlist_id, path) = deletion.unwrap();
    assert_eq!(playlist_id.as_str(), "PL1");
    assert_eq!(join_path(task.video_file_deleter, &path), "/videos/music/chill");
}

#[test]
fn delete_playlist_files_task_it_should_skip_if_invalid_playlist_id_provided() {
    let task = DeletePlaylistFilesTask::new("/videos");

    let deletion = task.deletion("".to_string(), "music/chill".to_string());

    assert_eq!(deletion, None);
}

#[test]
fn it_should_delete_the_video_file() {
    let task = DeleteVideoFileTask::new(());

    let deletion = task.deletion(
        Some("My Video.mp4".to_string()),
        None,
        "/videos/my-playlist".to_string(),
    );

    assert_eq!(
        deletion,
        VideoFileDeletion {
            filename: Some("My Video.mp4".to_string()),
            thumbnail_filename: None,
            output_dir: "/videos/my-playlist".to_string(),
        }
    );
}

#[test]
fn it_should_skip_if_invalid_video_id_provided() {
    let task = DownloadVideoTask::new(());

    let request = task.download_request("".to_string(), "high", "/videos/my-playlist".to_string(), false);

    assert_eq!(request, None);
}

#[test]
fn it_should_skip_if_the_quality_is_unknown() {
    let task = DownloadVideoTask::new(());

    let request = task.download_request("rec1".to_string(), "ultra", "/videos/my-playlist".to_string(), false);

    assert_eq!(request, None);
}

#[test]
fn it_should_download_into_the_payload_output_dir() {
    let task = DownloadVideoTask::new(());

    let request = task
        .download_request("rec1".to_string(), "high", "/videos/a/b/c".to_string(), false)
        .unwrap();

    assert_eq!(request.video_id.as_str(), "rec1");
    assert_eq!(request.quality, Quality::High);
    assert_eq!(request.output_dir, "/videos/a/b/c");
    assert!(!request.is_last_attempt);
}

#[test]
fn it_should_pass_on_the_last_attempt() {
    let task = DownloadVideoTask::new(());

    let request = task
        .download_request("rec1".to_string(), "mid", "/videos".to_string(), true)
        .unwrap();

    assert_eq!(request.quality, Quality::Mid);
    assert!(request.is_last_attempt);
}

#[test]
fn reconcile_channel_task_it_should_skip_if_invalid_channel_id_provided() {
    let task = ReconcileChannelTask::new(());

    assert_eq!(task.channel_to_reconcile("".to_string()), None);
}

#[test]
fn it_should_reconcile_the_channel_of_the_payload() {
    let task = ReconcileChannelTask::new(());

    let id = task.channel_to_reconcile("@somechannel".to_string()).unwrap();

    assert_eq!(id.as_str(), "@somechannel");
}

#[test]
fn reconcile_playlist_task_it_should_skip_if_invalid_playlist_id_provided() {
    let task = ReconcilePlaylistTask::new(());

    assert_eq!(task.playlist_to_reconcile("".to_string()), None);
}

#[test]
fn it_should_reconcile_the_playlist_of_the_payload() {
    let task = ReconcilePlaylistTask::new(());

    let id = task.playlist_to_reconcile("PL1".to_string()).unwrap();

    assert_eq!(id.as_str(), "PL1");
}

#[test]
fn it_should_reschedule_after_success() {
    let task = UpdateYtdlpTask::new(true, "/app/bin/yt-dlp".to_string(), (), ());

    let (next, run_at) = task.next_run(fixed_timestamp());

    assert_eq!(next, Task::UpdateYtdlp);
    assert_eq!(
        run_at,
        Timestamp { secs: 1_700_000_000 + UPDATE_INTERVAL_SECONDS, nanos: 0 }
    );
}

#[test]
fn it_should_reschedule_after_failure() {
    let task = UpdateYtdlpTask::new(false, "/app/bin/yt-dlp".to_string(), (), ());

    let (next, run_at) = task.next_run(fixed_timestamp());

    assert_eq!(next, Task::UpdateYtdlp);
    assert_eq!(run_at, Timestamp { secs: 1_700_003_600, nanos: 0 });
}

#[test]
fn it_should_keep_the_sub_second_part_when_rescheduling() {
    let task = UpdateYtdlpTask::new((), "/app/bin/yt-dlp".to_string(), (), ());

    let (_, run_at) = task.next_run(Timestamp { secs: 10, nanos: 250 });

    assert_eq!(run_at, Timestamp { secs: 3_610, nanos: 250 });
}

#[test]
fn it_should_find_the_handler_of_every_task_type() {
    let tasks = vec![
        (Task::ReconcilePlaylist { playlist_id: "PL1".to_string() }, TaskKind::ReconcilePlaylist),
        (Task::ReconcileChannel { channel_id: "@c".to_string() }, TaskKind::ReconcileChannel),
        (
            Task::DownloadVideo {
                video_id: "rec1".to_string(),
                quality: "high".to_string(),
                output_dir: "/videos".to_string(),
            },
            TaskKind::DownloadVideo,
        ),
        (
            Task::DeleteVideoFile {
                filename: None,
                thumbnail_filename: None,
                output_dir: "/videos".to_string(),
            },
            TaskKind::DeleteVideoFile,
        ),
        (
            Task::DeletePlaylistFiles { playlist_id: "PL1".to_string(), path: "p".to_string() },
            TaskKind::DeletePlaylistFiles,
        ),
        (
            Task::DeleteChannelFiles { channel_id: "@c".to_string(), path: "p".to_string() },
            TaskKind::DeleteChannelFiles,
        ),
        (Task::UpdateYtdlp, TaskKind::UpdateYtdlp),
    ];
    for (task, kind) in tasks {
        assert_eq!(task.kind(), kind);
        assert_eq!(TaskKind::for_task_type(task.task_type()), Some(kind));
    }
}

#[test]
fn it_should_name_the_task_types() {
    assert_eq!(Task::UpdateYtdlp.task_type(), "update_ytdlp");
    assert_eq!(TaskKind::DeleteChannelFiles.task_type(), "delete_channel_files");
    assert_eq!(TaskKind::for_task_type("download_video"), Some(TaskKind::DownloadVideo));
    assert_eq!(TaskKind::for_task_type("unknown"), None);
}

#[test]
fn it_should_share_the_video_file_deleter_between_the_deletion_tasks() {
    let registry = registry(1u8, 2u8, 3u8, 4u8, 5u8, 6u8, 7u8, "/app/bin/yt-dlp".to_string());

    let keys: Vec<&str> = registry.iter().map(|(key, _)| key.as_str()).collect();
    assert_eq!(
        keys,
        vec![
            "reconcile_playlist",
            "reconcile_channel",
            "download_video",
            "delete_video_file",
            "delete_playlist_files",
            "delete_channel_files",
            "update_ytdlp",
        ]
    );
    for (key, handler) in &registry {
        match handler {
            Handler::ReconcilePlaylist(h) => {
                assert_eq!(key, "reconcile_playlist");
                assert_eq!(h.playlist_video_reconciler, 1);
            }
            Handler::ReconcileChannel(h) => {
                assert_eq!(key, "reconcile_channel");
                assert_eq!(h.channel_video_reconciler, 2);
            }
            Handler::DownloadVideo(h) => {
                assert_eq!(key, "download_video");
                assert_eq!(h.video_downloader, 3);
            }
            Handler::DeleteVideoFile(h) => {
                assert_eq!(key, "delete_video_file");
                assert_eq!(h.video_file_deleter, 4);
            }
            Handler::DeletePlaylistFiles(h) => {
                assert_eq!(key, "delete_playlist_files");
                assert_eq!(h.video_file_deleter, 4);
            }
            Handler::DeleteChannelFiles(h) => {
                assert_eq!(key, "delete_channel_files");
                assert_eq!(h.video_file_deleter, 4);
            }
            Handler::UpdateYtdlp(h) => {
                assert_eq!(key, "update_ytdlp");
                assert_eq!(h.task_repository, 5);
                assert_eq!(h.clock, 6);
                assert_eq!(h.updater, 7);
                assert_eq!(h.ytdlp_path, "/app/bin/yt-dlp");
            }
        }
    }
}

#[test]
fn it_should_run_the_update_first() {
    let task = UpdateYtdlpTask::new((), "/app/bin/yt-dlp".to_string(), (), ());

    assert_eq!(
        task.step(UpdateYtdlpEvent::Started),
        UpdateYtdlpAction::Update("/app/bin/yt-dlp".to_string())
    );
}

#[test]
fn it_should_schedule_the_next_update_whatever_the_update_returned() {
    let task = UpdateYtdlpTask::new((), "/app/bin/yt-dlp".to_string(), (), ());
    let next = UpdateYtdlpAction::Schedule(
        Task::UpdateYtdlp,
        Timestamp { secs: 1_700_003_600, nanos: 0 },
    );

    assert_eq!(task.step(UpdateYtdlpEvent::Updated(Ok(()), fixed_timestamp())), next);
    assert_eq!(
        task.step(UpdateYtdlpEvent::Updated(Err("network down".to_string()), fixed_timestamp())),
        next
    );
}

#[test]
fn it_should_answer_ok_after_a_failed_update_once_rescheduled() {
    let task = UpdateYtdlpTask::new((), "/app/bin/yt-dlp".to_string(), (), ());

    assert_eq!(
        task.step(UpdateYtdlpEvent::Scheduled(Ok(()))),
        UpdateYtdlpAction::Finish(Ok(()))
    );
    assert_eq!(
        task.step(UpdateYtdlpEvent::Scheduled(Err("queue locked".to_string()))),
        UpdateYtdlpAction::Finish(Err("queue locked".to_string()))
    );
}
