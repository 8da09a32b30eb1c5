//! Transport shapes: the job records reported by the external queue daemon
//! and the façade's own slimmed-down response projection of them.
//!
//! Every value here is built fresh per request from the daemon's output and
//! discarded after the response is sent; nothing is cached or retained.
//! Timestamps are carried as plain text exactly as the daemon reported them;
//! this library never inspects them.

use vstd::prelude::*;

verus! {

/// The final result of a finished task, as reported by the external daemon.
/// The façade never branches on the variant; it only passes it through.
#[derive(Debug)]
pub enum TaskResult {
    Success,
    Failed(i32),
    FailedToSpawn(String),
    Killed,
    Errored,
    DependencyFailed,
}

/// The state of a task inside the external daemon's queue. Opaque
/// pass-through data for the façade: inspected by nobody here, reserialized
/// at the edge.
#[derive(Debug)]
pub enum TaskStatus {
    Queued,
    Stashed { enqueue_at: Option<String> },
    Running,
    Paused,
    Done(TaskResult),
    Locked,
}

/// One job record as reported by the external queue daemon.
#[derive(Debug)]
pub struct ExternalTask {
    pub id: usize,
    pub command: String,
    pub status: TaskStatus,
    pub created_at: String,
    pub start: Option<String>,
    pub end: Option<String>,
}

/// The façade's own output shape for one task. `output` carries the captured
/// execution log for the single-task endpoint and is absent in the listing.
#[derive(Debug)]
pub struct TaskDisplayable {
    pub id: usize,
    pub command: String,
    pub status: TaskStatus,
    pub created_at: String,
    pub start: Option<String>,
    pub end: Option<String>,
    pub output: Option<String>,
}

/// The façade's output shape for the listing endpoint: all tasks, ordered
/// ascending by numeric id.
#[derive(Debug)]
pub struct StatusDisplayable {
    pub tasks: Vec<TaskDisplayable>,
}

/// One group entry of the daemon's status snapshot. Read by nothing here;
/// kept so that the whole snapshot can be carried through.
#[derive(Debug)]
pub struct PueueGroup {
    pub parallel_tasks: u16,
    pub status: String,
}

/// The daemon's full status snapshot: its groups and its tasks. The group
/// names and task keys of the daemon's output are carried as plain pairs;
/// the listing logic reads only the task records themselves.
#[derive(Debug)]
pub struct PueueStatus {
    pub groups: Vec<(String, PueueGroup)>,
    pub tasks: Vec<ExternalTask>,
}

/// One entry of the daemon's log lookup: the captured output text and the
/// job record it belongs to.
#[derive(Debug)]
pub struct PueueTaskLog {
    pub output: String,
    pub task: ExternalTask,
}

fn duplicate_opt_string(o: &Option<String>) -> (r: Option<String>)
    ensures
        r == *o,
{
    match o {
        Some(s) => Some(s.clone()),
        None => None,
    }
}

impl TaskResult {
    /// An equal copy of the result.
    pub fn duplicate(&self) -> (r: TaskResult)
        ensures
            r == *self,
    {
        match self {
            TaskResult::Success => TaskResult::Success,
            TaskResult::Failed(code) => TaskResult::Failed(*code),
            TaskResult::FailedToSpawn(msg) => TaskResult::FailedToSpawn(msg.clone()),
            TaskResult::Killed => TaskResult::Killed,
            TaskResult::Errored => TaskResult::Errored,
            TaskResult::DependencyFailed => TaskResult::DependencyFailed,
        }
    }
}

impl TaskStatus {
    /// An equal copy of the status.
    pub fn duplicate(&self) -> (r: TaskStatus)
        ensures
            r == *self,
    {
        match self {
            TaskStatus::Queued => TaskStatus::Queued,
            TaskStatus::Stashed { enqueue_at } => TaskStatus::Stashed {
                enqueue_at: duplicate_opt_string(enqueue_at),
            },
            TaskStatus::Running => TaskStatus::Running,
            TaskStatus::Paused => TaskStatus::Paused,
            TaskStatus::Done(result) => TaskStatus::Done(result.duplicate()),
            TaskStatus::Locked => TaskStatus::Locked,
        }
    }
}

impl ExternalTask {
    /// An equal copy of the job record.
    pub fn duplicate(&self) -> (r: ExternalTask)
        ensures
            r == *self,
    {
        ExternalTask {
            id: self.id,
            command: self.command.clone(),
            status: self.status.duplicate(),
            created_at: self.created_at.clone(),
            start: duplicate_opt_string(&self.start),
            end: duplicate_opt_string(&self.end),
        }
    }
}

impl PueueTaskLog {
    /// An equal copy of the log entry.
    pub fn duplicate(&self) -> (r: PueueTaskLog)
        ensures
            r == *self,
    {
        PueueTaskLog { output: self.output.clone(), task: self.task.duplicate() }
    }
}

} // verus!
