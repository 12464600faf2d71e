use vstd::prelude::*;

pub mod closure;
pub mod ontology_reasoner;

verus! {

} // verus!
