use vstd::prelude::*;

use crate::time::{current_time, Timestamp};

verus! {

/// What the result store holds for a task that completed.
#[derive(Debug)]
pub struct ResultEnvelope<T> {
    pub task_id: String,
    pub status: String,
    pub result: T,
    pub traceback: Option<String>,
    pub date_done: Option<Timestamp>,
}

/// The namespace that result-store keys start with.
pub open spec fn key_prefix() -> Seq<char> {
    "celery-task-meta-"@
}

/// The result-store key of task `task_id`.
pub open spec fn result_key_of(task_id: Seq<char>) -> Seq<char> {
    key_prefix() + task_id
}

/// The key under which the outcome of task `task_id` is stored.
pub fn result_key(task_id: &str) -> (r: String)
    ensures
        r@ == result_key_of(task_id@),
{
    let mut key = String::from_str("celery-task-meta-");
    key.append(task_id);
    key
}

/// `e` is the success envelope of task `task_id` with `result`, completed at `at`.
pub open spec fn success_envelope<T>(e: ResultEnvelope<T>, task_id: Seq<char>, result: T, at: Timestamp) -> bool {
    &&& e.task_id@ == task_id
    &&& e.status@ == "SUCCESS"@
    &&& e.result == result
    &&& e.traceback is None
    &&& e.date_done == Some(at)
}

impl<T> ResultEnvelope<T> {
    /// The success envelope of task `task_id` with `result`, completed at `at`.
    pub fn success_at(task_id: &str, result: T, at: Timestamp) -> (e: ResultEnvelope<T>)
        ensures
            success_envelope(e, task_id@, result, at),
    {
        ResultEnvelope {
            task_id: String::from_str(task_id),
            status: String::from_str("SUCCESS"),
            result,
            traceback: None,
            date_done: Some(at),
        }
    }

    /// The success envelope of task `task_id` with `result`, stamped with
    /// the current time.
    pub fn success(task_id: &str, result: T) -> (e: ResultEnvelope<T>)
        ensures
            exists|at: Timestamp| success_envelope(e, task_id@, result, at) && at.nanos < 1_000_000_000,
    {
        let at = current_time();
        Self::success_at(task_id, result, at)
    }

    /// Whether this envelope reports success.
    pub fn is_success(&self) -> (b: bool)
        ensures
            b == (self.status@ == "SUCCESS"@),
    {
        let success = String::from_str("SUCCESS");
        self.status == success
    }
}

} // verus!
