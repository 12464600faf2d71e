use crate::models::log::Log;
use crate::models::task::Task;
use crate::models::thought::Thought;
use crate::models::{searchable, searchable_text, MetadataField, MODEL_ID_LENGTH};
use crate::runtime::{fresh_id, now_millis};
use crate::text::views;
use vstd::prelude::*;

verus! {

/// An agent: who it is and what it is after.
#[derive(Debug, Clone)]
pub struct Agent {
    pub id: String,
    pub role: String,
    pub goal: String,
    pub metadata: Vec<MetadataField>,
    /// When the agent was created, in milliseconds since the start of 1970.
    pub created_at: i64,
    pub updated_at: Option<i64>,
}

/// A request to create an agent.
#[derive(Debug, Clone)]
pub struct CreateAgentRequest {
    pub role: String,
    pub goal: String,
    pub metadata: Vec<MetadataField>,
}

/// An agent with its tasks, thoughts and log entries.
#[derive(Debug, Clone)]
pub struct AgentWithRelations {
    pub agent: Agent,
    pub tasks: Vec<Task>,
    pub thoughts: Vec<Thought>,
    pub logs: Vec<Log>,
}

impl Agent {
    /// An agent with the given identifier, created at `now`.
    pub fn with_id(id: String, role: String, goal: String, metadata: Vec<MetadataField>, now: i64) -> (agent:
        Self)
        ensures
            agent == (Agent { id, role, goal, metadata, created_at: now, updated_at: None }),
    {
        Agent { id, role, goal, metadata, created_at: now, updated_at: None }
    }

    /// A new agent with a fresh identifier, created now.
    pub fn new(role: String, goal: String, metadata: Vec<MetadataField>) -> (agent: Self)
        ensures
            agent.id@.len() == MODEL_ID_LENGTH,
            agent.role == role,
            agent.goal == goal,
            agent.metadata == metadata,
            agent.updated_at is None,
    {
        Agent::with_id(fresh_id(MODEL_ID_LENGTH), role, goal, metadata, now_millis())
    }

    /// The text that the agent is searched by: its role, its goal, and the texts of
    /// its metadata.
    pub fn to_searchable_text(&self) -> (text: String)
        ensures
            text@ == searchable(seq![self.role@, self.goal@], self.metadata@),
    {
        let mut parts: Vec<String> = Vec::new();
        parts.push(self.role.clone());
        parts.push(self.goal.clone());
        assert(views(parts@) =~= seq![self.role@, self.goal@]);
        searchable_text(parts, &self.metadata)
    }
}

} // verus!
