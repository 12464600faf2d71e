use crate::models::{MetadataField, MODEL_ID_LENGTH};
use crate::runtime::{fresh_id, now_millis};
use crate::text::{owned, signed_decimal, signed_decimal_text};
use vstd::prelude::*;

verus! {

/// A step of an agent's reasoning.
#[derive(Debug, Clone)]
pub struct Thought {
    pub id: String,
    pub agent_id: String,
    pub task_id: Option<String>,
    pub content: String,
    /// The place of the thought in the chain of reasoning.
    pub sequence: Option<i32>,
    pub metadata: Vec<MetadataField>,
    /// When the thought was had, in milliseconds since the start of 1970.
    pub timestamp: i64,
}

/// A request to create a thought.
#[derive(Debug, Clone)]
pub struct CreateThoughtRequest {
    pub agent_id: String,
    pub task_id: Option<String>,
    pub content: String,
    pub sequence: Option<i32>,
    pub metadata: Vec<MetadataField>,
}

impl Thought {
    /// A thought with the given identifier, had at `now`.
    pub fn with_id(
        id: String,
        agent_id: String,
        task_id: Option<String>,
        content: String,
        sequence: Option<i32>,
        metadata: Vec<MetadataField>,
        now: i64,
    ) -> (thought: Self)
        ensures
            thought == (Thought {
                id,
                agent_id,
                task_id,
                content,
                sequence,
                metadata,
                timestamp: now,
            }),
    {
        Thought { id, agent_id, task_id, content, sequence, metadata, timestamp: now }
    }

    /// A new thought with a fresh identifier, had now.
    pub fn new(
        agent_id: String,
        task_id: Option<String>,
        content: String,
        sequence: Option<i32>,
        metadata: Vec<MetadataField>,
    ) -> (thought: Self)
        ensures
            thought.id@.len() == MODEL_ID_LENGTH,
            thought.agent_id == agent_id,
            thought.task_id == task_id,
            thought.content == content,
            thought.sequence == sequence,
            thought.metadata == metadata,
    {
        Thought::with_id(
            fresh_id(MODEL_ID_LENGTH),
            agent_id,
            task_id,
            content,
            sequence,
            metadata,
            now_millis(),
        )
    }

    /// The text that the thought is searched by: its content, after its place in the
    /// chain where it has one.
    pub fn to_searchable_text(&self) -> (text: String)
        ensures
            text@ == match self.sequence {
                Some(seq) => "Step "@ + signed_decimal(seq as int) + ": "@ + self.content@,
                None => self.content@,
            },
    {
        match self.sequence {
            Some(seq) => {
                let place = signed_decimal_text(seq as i64);
                let mut text = owned("Step ");
                text.append(place.as_str());
                text.append(": ");
                text.append(self.content.as_str());
                text
            },
            None => self.content.clone(),
        }
    }
}

} // verus!
