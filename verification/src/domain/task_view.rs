use super::shared::Timestamp;
use std::collections::HashMap;
use vstd::prelude::*;

verus! {

/// Where a queued task stands.
#[derive(Debug, Clone, Copy, PartialEq, Eq)]
pub enum TaskStatus {
    Pending,
    Running,
    Completed,
    Failed,
}

/// The name a task status is answered with.
pub open spec fn task_status_name(s: TaskStatus) -> Seq<char> {
    match s {
        TaskStatus::Pending => "pending"@,
        TaskStatus::Running => "running"@,
        TaskStatus::Completed => "completed"@,
        TaskStatus::Failed => "failed"@,
    }
}

impl TaskStatus {
    pub fn as_str(&self) -> (r: &'static str)
        ensures
            r@ == task_status_name(*self),
    {
        match self {
            TaskStatus::Pending => "pending",
            TaskStatus::Running => "running",
            TaskStatus::Completed => "completed",
            TaskStatus::Failed => "failed",
        }
    }
}

/// A queued task as listed, with what its payload refers to described by
/// name.
#[derive(Debug, Clone, PartialEq, Eq)]
pub struct TaskView {
    pub id: i64,
    pub task_type: String,
    pub status: TaskStatus,
    pub retries: i64,
    pub run_at: Timestamp,
    pub created_at: Timestamp,
    pub last_error: Option<String>,
    pub payload: HashMap<String, String>,
}

/// Each task status is answered with its own lower-case name, and no two
/// statuses share a name.
pub proof fn lemma_task_status_names(a: TaskStatus, b: TaskStatus)
    ensures
        task_status_name(TaskStatus::Pending) == "pending"@,
        task_status_name(TaskStatus::Running) == "running"@,
        task_status_name(TaskStatus::Completed) == "completed"@,
        task_status_name(TaskStatus::Failed) == "failed"@,
        task_status_name(a) == task_status_name(b) ==> a == b,
{
    reveal_strlit("pending");
    reveal_strlit("running");
    reveal_strlit("completed");
    reveal_strlit("failed");
    if task_status_name(a) == task_status_name(b) && a != b {
        let (x, y) = (task_status_name(a), task_status_name(b));
        assert(x.len() == y.len());
        assert(x[0] == y[0]);
    }
}

} // verus!
