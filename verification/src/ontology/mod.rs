use vstd::prelude::*;

pub mod entity_type;
pub mod hierarchy;
pub mod laws;
pub mod loader;
pub mod relation_type;
pub mod schema;
pub mod validation_laws;
pub mod validator;
pub mod value;

verus! {

} // verus!
