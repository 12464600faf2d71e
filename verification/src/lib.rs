//! An observability database for the traces of LLM agents, as a verified library.
//!
//! The library holds what the database decides and computes: the ontology and its
//! reasoner, the validation of entities and relations, the merging and ranking of
//! query results, and the steps of queries, writes and event ingestion. Whatever
//! touches a store or an embedding provider is written as a sequence of steps: each
//! step takes what came back from the outside and says what to ask for next, and its
//! contract says so exactly. The caller performs what is asked for.
//!
//! Scores are counted in billionths and timestamps in milliseconds since the start of
//! 1970, so that the library computes with integers only.
//!
//! The module `agent` holds what the log agent decides: how a log entry is read by the
//! rules of its log group, from what the patterns capture in it, and how batches of
//! events are counted and sent again.

use vstd::prelude::*;

pub mod agent;
pub mod analytics;
pub mod api;
pub mod config;
pub mod db;
pub mod embeddings;
pub mod error;
pub mod ingestion;
pub mod intelligence;
pub mod models;
pub mod ontology;
pub mod query;
pub mod runtime;
pub mod text;

verus! {

} // verus!
