use crate::models::log::Log;
use crate::models::thought::Thought;
use crate::models::{searchable, searchable_text, MetadataField, MODEL_ID_LENGTH};
use crate::runtime::{fresh_id, now_millis};
use crate::text::{concat2, views};
use vstd::prelude::*;

verus! {

/// What a task is in.
#[derive(Debug, Clone, Copy, PartialEq, Eq, Structural)]
pub enum TaskStatus {
    Pending,
    Running,
    Completed,
    Failed,
    Cancelled,
}

impl Default for TaskStatus {
    fn default() -> (status: Self)
        ensures
            status == TaskStatus::Pending,
    {
        TaskStatus::Pending
    }
}

impl TaskStatus {
    /// The status's name.
    pub open spec fn written(&self) -> Seq<char> {
        match *self {
            TaskStatus::Pending => "Pending"@,
            TaskStatus::Running => "Running"@,
            TaskStatus::Completed => "Completed"@,
            TaskStatus::Failed => "Failed"@,
            TaskStatus::Cancelled => "Cancelled"@,
        }
    }

    /// The status's name.
    pub fn name(&self) -> (text: &'static str)
        ensures
            text@ == self.written(),
    {
        match self {
            TaskStatus::Pending => "Pending",
            TaskStatus::Running => "Running",
            TaskStatus::Completed => "Completed",
            TaskStatus::Failed => "Failed",
            TaskStatus::Cancelled => "Cancelled",
        }
    }
}

/// A task of an agent.
#[derive(Debug, Clone)]
pub struct Task {
    pub id: String,
    pub agent_id: String,
    pub name: String,
    pub status: TaskStatus,
    /// How long the task took, in milliseconds, once it has ended.
    pub duration_ms: Option<i64>,
    pub metadata: Vec<MetadataField>,
    /// When the task was created, in milliseconds since the start of 1970.
    pub created_at: i64,
    pub completed_at: Option<i64>,
    pub updated_at: Option<i64>,
}

/// A request to create a task.
#[derive(Debug, Clone)]
pub struct CreateTaskRequest {
    pub agent_id: String,
    pub name: String,
    pub status: TaskStatus,
    pub metadata: Vec<MetadataField>,
}

/// A task with its thoughts and log entries.
#[derive(Debug, Clone)]
pub struct TaskWithRelations {
    pub task: Task,
    pub thoughts: Vec<Thought>,
    pub logs: Vec<Log>,
}

/// The time from `from` to `to` in milliseconds, held within what a duration can hold.
pub open spec fn elapsed(from: i64, to: i64) -> i64 {
    if to - from > i64::MAX {
        i64::MAX
    } else if to - from < i64::MIN {
        i64::MIN
    } else {
        (to - from) as i64
    }
}

fn elapsed_ms(from: i64, to: i64) -> (ms: i64)
    ensures
        ms == elapsed(from, to),
{
    let diff: i128 = to as i128 - from as i128;
    if diff > i64::MAX as i128 {
        i64::MAX
    } else if diff < i64::MIN as i128 {
        i64::MIN
    } else {
        diff as i64
    }
}

impl Task {
    /// A pending task with the given identifier, created at `now`.
    pub fn with_id(id: String, agent_id: String, name: String, metadata: Vec<MetadataField>, now: i64) -> (task:
        Self)
        ensures
            task == (Task {
                id,
                agent_id,
                name,
                status: TaskStatus::Pending,
                duration_ms: None,
                metadata,
                created_at: now,
                completed_at: None,
                updated_at: None,
            }),
    {
        Task {
            id,
            agent_id,
            name,
            status: TaskStatus::Pending,
            duration_ms: None,
            metadata,
            created_at: now,
            completed_at: None,
            updated_at: None,
        }
    }

    /// A new pending task with a fresh identifier, created now.
    pub fn new(agent_id: String, name: String, metadata: Vec<MetadataField>) -> (task: Self)
        ensures
            task.id@.len() == MODEL_ID_LENGTH,
            task.agent_id == agent_id,
            task.name == name,
            task.status == TaskStatus::Pending,
            task.duration_ms is None,
            task.metadata == metadata,
            task.completed_at is None,
            task.updated_at is None,
    {
        Task::with_id(fresh_id(MODEL_ID_LENGTH), agent_id, name, metadata, now_millis())
    }

    /// Ends the task at `now` with the given status; the task took the time since it
    /// was created.
    pub fn end_at(&mut self, status: TaskStatus, now: i64)
        ensures
            *final(self) == (Task {
                status,
                completed_at: Some(now),
                updated_at: Some(now),
                duration_ms: Some(elapsed(old(self).created_at, now)),
                ..*old(self)
            }),
    {
        self.status = status;
        self.completed_at = Some(now);
        self.updated_at = Some(now);
        self.duration_ms = Some(elapsed_ms(self.created_at, now));
    }

    /// Marks the task as completed, now.
    pub fn complete(&mut self)
        ensures
            final(self).status == TaskStatus::Completed,
            final(self).completed_at is Some,
            final(self).updated_at == final(self).completed_at,
            final(self).duration_ms == Some(
                elapsed(old(self).created_at, final(self).completed_at->0),
            ),
            final(self).id == old(self).id,
            final(self).agent_id == old(self).agent_id,
            final(self).name == old(self).name,
            final(self).metadata == old(self).metadata,
            final(self).created_at == old(self).created_at,
    {
        self.end_at(TaskStatus::Completed, now_millis());
    }

    /// Marks the task as failed, now.
    pub fn fail(&mut self)
        ensures
            final(self).status == TaskStatus::Failed,
            final(self).completed_at is Some,
            final(self).updated_at == final(self).completed_at,
            final(self).duration_ms == Some(
                elapsed(old(self).created_at, final(self).completed_at->0),
            ),
            final(self).id == old(self).id,
            final(self).agent_id == old(self).agent_id,
            final(self).name == old(self).name,
            final(self).metadata == old(self).metadata,
            final(self).created_at == old(self).created_at,
    {
        self.end_at(TaskStatus::Failed, now_millis());
    }

    /// The text that the task is searched by: its name, its status, and the texts of
    /// its metadata.
    pub fn to_searchable_text(&self) -> (text: String)
        ensures
            text@ == searchable(
                seq![self.name@, "status: "@ + self.status.written()],
                self.metadata@,
            ),
    {
        let mut parts: Vec<String> = Vec::new();
        parts.push(self.name.clone());
        parts.push(concat2("status: ", self.status.name()));
        assert(views(parts@) =~= seq![self.name@, "status: "@ + self.status.written()]);
        searchable_text(parts, &self.metadata)
    }
}

} // verus!
