//! Cancelling the running task of a thread.
use vstd::prelude::*;

verus! {

/// The answer to a cancellation that was passed to the runner.
#[derive(Debug)]
pub struct CancelTaskResponse {
    pub task_run_id: String,
    pub status: String,
}

/// Why a cancellation was refused.
#[derive(Debug, Clone, Copy, PartialEq, Eq, Structural)]
pub enum CancelRefusal {
    /// The thread has no session.
    UnknownThread,
    /// The thread has no running task.
    NothingRunning,
    /// The runner no longer holds the run.
    NoLongerActive,
}

impl CancelRefusal {
    /// The HTTP status of the refusal.
    pub fn status(&self) -> (r: u16)
        ensures
            r == (match self {
                CancelRefusal::UnknownThread => 404u16,
                _ => 409u16,
            }),
    {
        match self {
            CancelRefusal::UnknownThread => 404,
            _ => 409,
        }
    }

    /// The text of the refusal.
    pub fn message(&self) -> (r: String)
        ensures
            r@ == cancel_refusal_text(*self),
    {
        match self {
            CancelRefusal::UnknownThread => "task thread not found".to_string(),
            CancelRefusal::NothingRunning => "No running request found in this thread.".to_string(),
            CancelRefusal::NoLongerActive => "Unable to cancel this request because it is no longer active.".to_string(),
        }
    }
}

pub open spec fn cancel_refusal_text(r: CancelRefusal) -> Seq<char> {
    match r {
        CancelRefusal::UnknownThread => "task thread not found"@,
        CancelRefusal::NothingRunning => "No running request found in this thread."@,
        CancelRefusal::NoLongerActive => "Unable to cancel this request because it is no longer active."@,
    }
}

/// The answer once the runner was asked to cancel the thread's running task:
/// a cancellation was requested when the runner still held the run.
pub fn cancel_outcome(task_run_id: String, cancelled: bool) -> (r: Result<CancelTaskResponse, CancelRefusal>)
    ensures
        cancelled ==> (r is Ok && r->Ok_0.task_run_id@ == task_run_id@ && r->Ok_0.status@
            == "cancellation_requested"@),
        !cancelled ==> r == Err::<CancelTaskResponse, CancelRefusal>(CancelRefusal::NoLongerActive),
{
    if cancelled {
        Ok(CancelTaskResponse { task_run_id, status: "cancellation_requested".to_string() })
    } else {
        Err(CancelRefusal::NoLongerActive)
    }
}

} // verus!
