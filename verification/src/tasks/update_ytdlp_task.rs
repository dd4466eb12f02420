use crate::domain::shared::Timestamp;
use crate::domain::task::{Task, TaskView};
use vstd::prelude::*;

verus! {

/// How often the recurring self-update of `yt-dlp` runs, in seconds.
pub const UPDATE_INTERVAL_SECONDS: i64 = 3600;

/// The recurring hourly self-update of `yt-dlp`. Whether or not an attempt
/// succeeds, it schedules its next occurrence: a failed update is not a
/// failed unit of work.
pub struct UpdateYtdlpTask<U, T, C> {
    pub updater: U,
    pub ytdlp_path: String,
    pub task_repository: T,
    pub clock: C,
}

impl<U, T, C> UpdateYtdlpTask<U, T, C> {
    pub fn new(updater: U, ytdlp_path: String, task_repository: T, clock: C) -> (s: Self)
        ensures
            s.updater == updater,
            s.ytdlp_path == ytdlp_path,
            s.task_repository == task_repository,
            s.clock == clock,
    {
        UpdateYtdlpTask { updater, ytdlp_path, task_repository, clock }
    }

    /// The next occurrence to schedule after an attempt at `now`, whatever
    /// that attempt's outcome: another self-update, one interval later.
    pub fn next_run(&self, now: Timestamp) -> (r: (Task, Timestamp))
        requires
            now.secs + UPDATE_INTERVAL_SECONDS <= i64::MAX,
        ensures
            r.0@ == TaskView::UpdateYtdlp,
            r.1.secs == now.secs + UPDATE_INTERVAL_SECONDS,
            r.1.nanos == now.nanos,
    {
        (Task::UpdateYtdlp, now.plus_seconds(UPDATE_INTERVAL_SECONDS))
    }

    /// What the self-update does next, given what just happened: once
    /// started it runs the update of the binary at its path; once the update
    /// returned, at `now`, it schedules its next occurrence one interval
    /// later, whether the update succeeded or failed; once that is scheduled
    /// it answers with the outcome of scheduling alone, so a failed update
    /// still answers `Ok`.
    pub fn step(&self, event: UpdateYtdlpEvent) -> (r: UpdateYtdlpAction)
        requires
            event matches UpdateYtdlpEvent::Updated(_, now) ==> now.secs + UPDATE_INTERVAL_SECONDS
                <= i64::MAX,
        ensures
            match event {
                UpdateYtdlpEvent::Started => r matches UpdateYtdlpAction::Update(p) && p@
                    == self.ytdlp_path@,
                UpdateYtdlpEvent::Updated(_, now) => r matches UpdateYtdlpAction::Schedule(t, at)
                    && t@ == TaskView::UpdateYtdlp && at.secs == now.secs
                    + UPDATE_INTERVAL_SECONDS && at.nanos == now.nanos,
                UpdateYtdlpEvent::Scheduled(res) => r == UpdateYtdlpAction::Finish(res),
            },
    {
        match event {
            UpdateYtdlpEvent::Started => UpdateYtdlpAction::Update(self.ytdlp_path.clone()),
            UpdateYtdlpEvent::Updated(_, now) => {
                let (t, at) = self.next_run(now);
                UpdateYtdlpAction::Schedule(t, at)
            },
            UpdateYtdlpEvent::Scheduled(res) => UpdateYtdlpAction::Finish(res),
        }
    }
}

/// What happened in a run of the self-update: it started, the update
/// returned (its outcome, and the time read right after), or the next
/// occurrence was scheduled (the outcome of scheduling).
#[derive(Debug, PartialEq, Eq)]
pub enum UpdateYtdlpEvent {
    Started,
    Updated(Result<(), String>, Timestamp),
    Scheduled(Result<(), String>),
}

/// What the self-update asks to be done next: update the binary at a path,
/// schedule a task at a time, or answer the run with an outcome.
#[derive(Debug, PartialEq, Eq)]
pub enum UpdateYtdlpAction {
    Update(String),
    Schedule(Task, Timestamp),
    Finish(Result<(), String>),
}

} // verus!
