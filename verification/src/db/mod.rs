use vstd::prelude::*;

pub mod qdrant_client;
pub mod surrealdb_client;
pub mod types;

verus! {

} // verus!
