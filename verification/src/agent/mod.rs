use vstd::prelude::*;

pub mod cloudwatch_client;
pub mod config;
pub mod parser;
pub mod state;
pub mod vectadb_client;

verus! {

} // verus!
