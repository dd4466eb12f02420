use vstd::prelude::*;

verus! {

/// The files of one video to delete, and the directory they are in.
#[derive(Debug, Clone, PartialEq, Eq)]
pub struct VideoFileDeletion {
    pub filename: Option<String>,
    pub thumbnail_filename: Option<String>,
    pub output_dir: String,
}

/// Deletes one video's downloaded files, scheduled by
/// `DeleteVideoFileOnVideoRemovedFromPlaylist` and
/// `DeleteVideoFileOnVideoRemovedFromChannel` whenever a downloaded video
/// leaves its tracked container.
pub struct DeleteVideoFileTask<D> {
    pub video_file_deleter: D,
}

impl<D> DeleteVideoFileTask<D> {
    pub fn new(video_file_deleter: D) -> (s: Self)
        ensures
            s.video_file_deleter == video_file_deleter,
    {
        DeleteVideoFileTask { video_file_deleter }
    }

    /// The deletion a task carrying these fields asks for: every task does,
    /// with its fields as they are.
    pub fn deletion(
        &self,
        filename: Option<String>,
        thumbnail_filename: Option<String>,
        output_dir: String,
    ) -> (r: VideoFileDeletion)
        ensures
            r.filename == filename,
            r.thumbnail_filename == thumbnail_filename,
            r.output_dir == output_dir,
    {
        VideoFileDeletion { filename, thumbnail_filename, output_dir }
    }
}

} // verus!
