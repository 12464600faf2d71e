use vstd::prelude::*;

verus! {

/// Analyses how queries perform.
#[derive(Debug, Clone, Copy)]
pub struct QueryAnalyzer;

} // verus!
