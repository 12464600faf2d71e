use vstd::prelude::*;

pub mod coordinator;
pub mod fusion_laws;
pub mod graph;
pub mod graph_execution;
pub mod merge;
pub mod ranking;
pub mod traversal;
pub mod traversal_cover;
pub mod traversal_laws;
pub mod traversal_reach;
pub mod types;
pub mod vector;
pub mod vector_execution;

verus! {

} // verus!
