//! Long-running operations on the BMC.
use vstd::prelude::*;

use crate::model::{Message, ODataLinks};

verus! {

/// The state of a Task.
#[derive(Clone, Copy, Debug, PartialEq, Eq, Structural)]
pub enum TaskState {
    New,
    Starting,
    Running,
    Suspended,
    Interrupted,
    Pending,
    Stopping,
    Completed,
    Cancelled,
    Exception,
    Service,
}

impl TaskState {
    /// No further transition follows this state.
    pub open spec fn spec_is_terminal(self) -> bool {
        self == TaskState::Completed || self == TaskState::Cancelled || self == TaskState::Exception
    }

    /// No further transition follows this state.
    pub fn is_terminal(self) -> (r: bool)
        ensures
            r == self.spec_is_terminal(),
    {
        match self {
            TaskState::Completed | TaskState::Cancelled | TaskState::Exception => true,
            _ => false,
        }
    }
}

/// A Task resource.
#[derive(Clone, Debug)]
pub struct Task {
    pub odata: ODataLinks,
    pub id: String,
    pub messages: Vec<Message>,
    pub name: Option<String>,
    pub task_state: Option<TaskState>,
    pub task_status: Option<String>,
    pub task_monitor: Option<String>,
    pub percent_complete: Option<u32>,
}

} // verus!
