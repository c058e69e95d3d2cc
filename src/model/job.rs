//! Jobs: vendor resources much like Tasks, read as Tasks.
use vstd::prelude::*;

use crate::model::task::{Task, TaskState};
use crate::model::{clone_opt_string, ODataLinks};

verus! {

/// A Job resource.
#[derive(Clone, Debug)]
pub struct Job {
    pub odata: ODataLinks,
    pub id: Option<String>,
    pub name: Option<String>,
    pub percent_complete: Option<u32>,
    pub job_state: Option<TaskState>,
}

impl Job {
    /// The Job as a Task: same header, name, state and progress; an absent id reads as
    /// the empty string; no messages, status or monitor.
    pub fn as_task(&self) -> (t: Task)
        ensures
            t.odata == self.odata,
            self.id is Some ==> t.id == self.id->Some_0,
            self.id is None ==> t.id@ == Seq::<char>::empty(),
            t.messages@.len() == 0,
            t.name == self.name,
            t.task_state == self.job_state,
            t.task_status is None,
            t.task_monitor is None,
            t.percent_complete == self.percent_complete,
    {
        let id = match &self.id {
            Some(v) => v.clone(),
            None => String::new(),
        };
        Task {
            odata: self.odata.duplicate(),
            id,
            messages: Vec::new(),
            name: clone_opt_string(&self.name),
            task_state: self.job_state,
            task_status: None,
            task_monitor: None,
            percent_complete: self.percent_complete,
        }
    }
}

} // verus!
