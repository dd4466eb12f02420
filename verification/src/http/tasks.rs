use super::error::{ApiError, STATUS_INTERNAL_SERVER_ERROR};
use crate::domain::shared::Timestamp;
use crate::domain::task_view::{task_status_name, TaskView};
use std::collections::HashMap;
use vstd::prelude::*;

verus! {

/// A queued task, as listed.
#[derive(Debug, Clone, PartialEq, Eq)]
pub struct TaskResponse {
    pub id: i64,
    pub task_type: String,
    pub status: String,
    pub retries: i64,
    pub run_at: Timestamp,
    pub created_at: Timestamp,
    pub last_error: Option<String>,
    pub payload: HashMap<String, String>,
}

/// `r` lists `view`: its fields, its status written out.
pub open spec fn lists_task(r: TaskResponse, view: TaskView) -> bool {
    &&& r.id == view.id
    &&& r.task_type == view.task_type
    &&& r.status@ == task_status_name(view.status)
    &&& r.retries == view.retries
    &&& r.run_at == view.run_at
    &&& r.created_at == view.created_at
    &&& r.last_error == view.last_error
    &&& r.payload == view.payload
}

impl TaskResponse {
    pub fn from(view: TaskView) -> (r: Self)
        ensures
            lists_task(r, view),
    {
        TaskResponse {
            id: view.id,
            task_type: view.task_type,
            status: view.status.as_str().to_string(),
            retries: view.retries,
            run_at: view.run_at,
            created_at: view.created_at,
            last_error: view.last_error,
            payload: view.payload,
        }
    }
}

/// The answer to a listing of the pending tasks: each of them, in order, or
/// `500 Internal Server Error` with the message of the failed search.
pub fn list_tasks_response(result: Result<Vec<TaskView>, String>) -> (r: Result<
    Vec<TaskResponse>,
    ApiError,
>)
    ensures
        match result {
            Ok(views) => r matches Ok(items) && items.len() == views.len() && forall|i: int|
                0 <= i < views.len() ==> lists_task(#[trigger] items[i], views[i]),
            Err(m) => r matches Err(e) && e@ == (STATUS_INTERNAL_SERVER_ERROR, m@),
        },
{
    match result {
        Err(m) => Err(ApiError::internal(m)),
        Ok(views) => {
            let ghost listed = views@;
            let mut items: Vec<TaskResponse> = Vec::new();
            for view in it: views
                invariant
                    it.seq() == listed,
                    items.len() == it.index(),
                    forall|i: int| 0 <= i < items.len() ==> lists_task(#[trigger] items[i], listed[i]),
            {
                items.push(TaskResponse::from(view));
            }
            Ok(items)
        },
    }
}

} // verus!
