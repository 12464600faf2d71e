use crate::models::{MetadataField, MODEL_ID_LENGTH};
use crate::runtime::{fresh_id, now_millis};
use crate::text::owned;
use vstd::prelude::*;

verus! {

/// How grave a log entry is.
#[derive(Debug, Clone, Copy, PartialEq, Eq, Structural)]
pub enum LogLevel {
    Debug,
    Info,
    Warning,
    Error,
    Critical,
}

impl Default for LogLevel {
    fn default() -> (level: Self)
        ensures
            level == LogLevel::Info,
    {
        LogLevel::Info
    }
}

impl LogLevel {
    /// The level's name, in capitals.
    pub open spec fn written(&self) -> Seq<char> {
        match *self {
            LogLevel::Debug => "DEBUG"@,
            LogLevel::Info => "INFO"@,
            LogLevel::Warning => "WARNING"@,
            LogLevel::Error => "ERROR"@,
            LogLevel::Critical => "CRITICAL"@,
        }
    }

    /// The level's name, in capitals.
    pub fn name(&self) -> (text: &'static str)
        ensures
            text@ == self.written(),
    {
        match self {
            LogLevel::Debug => "DEBUG",
            LogLevel::Info => "INFO",
            LogLevel::Warning => "WARNING",
            LogLevel::Error => "ERROR",
            LogLevel::Critical => "CRITICAL",
        }
    }

    /// The level's name, in capitals.
    pub fn to_string(&self) -> (text: String)
        ensures
            text@ == self.written(),
    {
        owned(self.name())
    }
}

/// A log entry of an agent.
#[derive(Debug, Clone)]
pub struct Log {
    pub id: String,
    pub agent_id: String,
    pub task_id: Option<String>,
    pub level: LogLevel,
    pub message: String,
    pub metadata: Vec<MetadataField>,
    /// When the entry was made, in milliseconds since the start of 1970.
    pub timestamp: i64,
}

/// A request to create a log entry.
#[derive(Debug, Clone)]
pub struct CreateLogRequest {
    pub agent_id: String,
    pub task_id: Option<String>,
    pub level: LogLevel,
    pub message: String,
    pub metadata: Vec<MetadataField>,
}

impl Log {
    /// A log entry with the given identifier, made at `now`.
    pub fn with_id(
        id: String,
        agent_id: String,
        task_id: Option<String>,
        level: LogLevel,
        message: String,
        metadata: Vec<MetadataField>,
        now: i64,
    ) -> (log: Self)
        ensures
            log == (Log { id, agent_id, task_id, level, message, metadata, timestamp: now }),
    {
        Log { id, agent_id, task_id, level, message, metadata, timestamp: now }
    }

    /// A new log entry with a fresh identifier, made now.
    pub fn new(
        agent_id: String,
        task_id: Option<String>,
        level: LogLevel,
        message: String,
        metadata: Vec<MetadataField>,
    ) -> (log: Self)
        ensures
            log.id@.len() == MODEL_ID_LENGTH,
            log.agent_id == agent_id,
            log.task_id == task_id,
            log.level == level,
            log.message == message,
            log.metadata == metadata,
    {
        Log::with_id(
            fresh_id(MODEL_ID_LENGTH),
            agent_id,
            task_id,
            level,
            message,
            metadata,
            now_millis(),
        )
    }

    /// Whether the entry reports an error: its level is `Error` or `Critical`.
    pub fn is_error(&self) -> (yes: bool)
        ensures
            yes == (self.level == LogLevel::Error || self.level == LogLevel::Critical),
    {
        match self.level {
            LogLevel::Error => true,
            LogLevel::Critical => true,
            _ => false,
        }
    }

    /// The text that the entry is searched by: its level, a bar, and its message.
    pub fn to_searchable_text(&self) -> (text: String)
        ensures
            text@ == self.level.written() + " | "@ + self.message@,
    {
        let mut text = owned(self.level.name());
        text.append(" | ");
        text.append(self.message.as_str());
        text
    }
}

} // verus!
