use vstd::prelude::*;

pub mod batch;
pub mod manager;
pub mod plugin;
pub mod service;

verus! {

} // verus!
