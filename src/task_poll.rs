//! Following a Task until it ends: after each fetch the poller says whether to wait
//! and fetch again, or what the Task came to. The caller sleeps and fetches.
use vstd::prelude::*;

use crate::model::task::{Task, TaskState};
use crate::model::error::{Error, ErrorInternal};
use crate::error::RedfishError;

verus! {

/// What the poller says after a fetch.
#[derive(Clone, Copy, Debug, PartialEq, Eq, Structural)]
pub enum PollNext {
    /// Not finished: sleep one interval, then fetch again.
    Wait,
    /// Finished as `Completed` or `Cancelled`.
    Finished(TaskState),
    /// Finished as `Exception`: its messages are the error.
    Failed,
    /// The caller's budget of fetches is spent.
    TimedOut,
}

/// A poller: fetches made without a terminal state, out of a budget.
#[derive(Clone, Copy, Debug, PartialEq, Eq, Structural)]
pub struct TaskPoller {
    pub ticks: u64,
    pub max_ticks: u64,
}

/// What a terminal state comes to.
pub open spec fn terminal_outcome(s: TaskState) -> PollNext {
    if s == TaskState::Exception {
        PollNext::Failed
    } else {
        PollNext::Finished(s)
    }
}

/// Is a fetched state (absent when the Task shows none) terminal?
pub open spec fn ends(obs: Option<TaskState>) -> bool {
    obs is Some && obs->Some_0.spec_is_terminal()
}

/// One step: the poller after `ticks` non-terminal fetches sees `obs`.
pub open spec fn poll_step(ticks: u64, max_ticks: u64, obs: Option<TaskState>) -> (u64, PollNext) {
    if ends(obs) {
        (ticks, terminal_outcome(obs->Some_0))
    } else {
        let t = if ticks < u64::MAX { (ticks + 1) as u64 } else { u64::MAX };
        (t, if t >= max_ticks { PollNext::TimedOut } else { PollNext::Wait })
    }
}

/// Polling against the fetched states `obs`, one per tick: the tick at which the
/// poller stops and what it says, or `obs.len()` and `Wait` when it has not stopped.
pub open spec fn poll_run(ticks: u64, max_ticks: u64, obs: Seq<Option<TaskState>>) -> (int, PollNext)
    decreases obs.len(),
{
    if obs.len() == 0 {
        (0, PollNext::Wait)
    } else {
        let (t, n) = poll_step(ticks, max_ticks, obs[0]);
        if n != PollNext::Wait {
            (0, n)
        } else {
            let (i, r) = poll_run(t, max_ticks, obs.drop_first());
            (i + 1, r)
        }
    }
}

impl TaskPoller {
    /// A poller that gives up after `max_ticks` fetches without a terminal state.
    pub fn new(max_ticks: u64) -> (r: TaskPoller)
        ensures
            r.ticks == 0,
            r.max_ticks == max_ticks,
    {
        TaskPoller { ticks: 0, max_ticks }
    }

    /// Take in the state of one fetch.
    pub fn observe(&mut self, obs: Option<TaskState>) -> (r: PollNext)
        ensures
            (final(self).ticks, r) == poll_step(old(self).ticks, old(self).max_ticks, obs),
            final(self).max_ticks == old(self).max_ticks,
    {
        if let Some(s) = obs {
            if s.is_terminal() {
                return if s == TaskState::Exception {
                    PollNext::Failed
                } else {
                    PollNext::Finished(s)
                };
            }
        }
        self.ticks = if self.ticks < u64::MAX {
            self.ticks + 1
        } else {
            u64::MAX
        };
        if self.ticks >= self.max_ticks {
            PollNext::TimedOut
        } else {
            PollNext::Wait
        }
    }
}

/// Polling terminates with the Task: when the fetched states first turn terminal at
/// tick `k`, within the budget, the poller stops at exactly tick `k` and reports that
/// state.
pub proof fn lemma_poll_stops_at_first_terminal(ticks: u64, max_ticks: u64, obs: Seq<Option<TaskState>>, k: int)
    requires
        0 <= k < obs.len(),
        ends(obs[k]),
        forall|j: int| 0 <= j < k ==> !ends(#[trigger] obs[j]),
        ticks as int + k < max_ticks as int,
    ensures
        poll_run(ticks, max_ticks, obs) == (k, terminal_outcome(obs[k]->Some_0)),
    decreases k,
{
    if k > 0 {
        assert(!ends(obs[0]));
        let rest = obs.drop_first();
        assert forall|j: int| 0 <= j < k - 1 implies !ends(#[trigger] rest[j]) by {
            assert(rest[j] == obs[j + 1]);
        }
        lemma_poll_stops_at_first_terminal((ticks + 1) as u64, max_ticks, rest, k - 1);
    }
}

/// The error a Task that ended in `Exception` comes to: a Redfish error, answered with
/// `status`, whose code is the Task's state, whose message names the Task, and whose
/// extended messages are the Task's messages.
pub fn task_exception_error(status: u16, task: Task) -> (e: RedfishError)
    ensures
        e is RemoteError,
        e->status == status,
        e->error.error.code@ == "Exception"@,
        e->error.error.message@ == "Task "@ + task.id@ + " ended in Exception"@,
        e->error.error.extended == task.messages,
{
    let message = crate::url::cat3("Task ", task.id.as_str(), " ended in Exception");
    RedfishError::RemoteError {
        status,
        error: Error {
            error: ErrorInternal { code: String::from_str("Exception"), message, extended: task.messages },
        },
    }
}

} // verus!
