use vstd::prelude::*;

pub mod entity_write;
pub mod relation_write;
pub mod types;
pub mod write;

verus! {

} // verus!
