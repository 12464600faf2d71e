use crate::api::types::ErrorResponse;
use crate::db::types::{Entity, Relation};
use crate::text::{concat2, owned};
use vstd::prelude::*;

verus! {

/// The status of an answer to a request that asked for something that is not there.
pub const NOT_FOUND: u16 = 404;

/// The status of an answer to a request that the schema does not admit.
pub const BAD_REQUEST: u16 = 400;

/// The status of an answer to a request that what is stored stands against.
pub const CONFLICT: u16 = 409;

/// The status of an answer to a request that a store failed on.
pub const INTERNAL_SERVER_ERROR: u16 = 500;

/// What came back from the stores and the embedding service.
#[derive(Debug)]
pub enum WriteEvent {
    /// The entity asked for, or none where the graph store holds none.
    Fetched(Option<Entity>),
    /// The relation asked for, or none where the graph store holds none.
    FetchedRelation(Option<Relation>),
    /// The relations asked for.
    Relations(Vec<Relation>),
    /// The graph store did what it was asked.
    Stored,
    StoreFailed(String),
    /// The text was embedded; these are the bits of the vector's components.
    Embedded(Vec<u32>),
    EmbeddingFailed(String),
    /// Whether the vector store has the collection.
    CollectionExists(bool),
    /// The vector store did what it was asked.
    VectorDone,
    VectorFailed(String),
}

/// A request that failed: the status of the answer, and the answer.
#[derive(Debug, Clone)]
pub struct Failure {
    pub status: u16,
    pub body: ErrorResponse,
}

impl Failure {
    /// Whether the failure has the given status, name and message.
    pub open spec fn is(&self, status: u16, error: Seq<char>, message: Seq<char>) -> bool {
        &&& self.status == status
        &&& self.body.error@ == error
        &&& self.body.message@ == message
    }

    /// A failure of the given status and name, with a message made of two parts.
    pub fn new(status: u16, error: &str, lead: &str, detail: &str) -> (failure: Self)
        ensures
            failure.is(status, error@, lead@ + detail@),
    {
        Failure {
            status,
            body: ErrorResponse { error: owned(error), message: concat2(lead, detail) },
        }
    }

    /// The failure of a request for something that the graph store does not hold.
    pub fn not_found(error: &str, what: &str, id: &str) -> (failure: Self)
        ensures
            failure.is(NOT_FOUND, error@, what@ + " '"@ + id@ + "' not found"@),
    {
        let mut message = owned(what);
        message.append(" '");
        message.append(id);
        message.append("' not found");
        Failure { status: NOT_FOUND, body: ErrorResponse { error: owned(error), message } }
    }
}

} // verus!
