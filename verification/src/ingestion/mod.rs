use vstd::prelude::*;

pub mod content;
pub mod event;
pub mod event_laws;
pub mod trace;
pub mod trace_laws;

verus! {

} // verus!
