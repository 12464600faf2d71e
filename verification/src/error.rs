use crate::text::concat2;
use vstd::prelude::*;

verus! {

/// Why an operation of the database failed.
#[derive(Debug, Clone)]
pub enum VectaDBError {
    /// The graph store failed.
    SurrealDB(String),
    /// The vector store failed.
    Qdrant(String),
    /// No embedding could be made.
    Embedding(String),
    Config(String),
    NotFound(String),
    InvalidInput(String),
    Unauthorized(String),
    Internal(String),
    Serialization(String),
}

/// An error by its kind and the characters of its detail.
pub enum ErrorView {
    SurrealDB(Seq<char>),
    Qdrant(Seq<char>),
    Embedding(Seq<char>),
    Config(Seq<char>),
    NotFound(Seq<char>),
    InvalidInput(Seq<char>),
    Unauthorized(Seq<char>),
    Internal(Seq<char>),
    Serialization(Seq<char>),
}

impl View for VectaDBError {
    type V = ErrorView;

    open spec fn view(&self) -> ErrorView {
        match *self {
            VectaDBError::SurrealDB(m) => ErrorView::SurrealDB(m@),
            VectaDBError::Qdrant(m) => ErrorView::Qdrant(m@),
            VectaDBError::Embedding(m) => ErrorView::Embedding(m@),
            VectaDBError::Config(m) => ErrorView::Config(m@),
            VectaDBError::NotFound(m) => ErrorView::NotFound(m@),
            VectaDBError::InvalidInput(m) => ErrorView::InvalidInput(m@),
            VectaDBError::Unauthorized(m) => ErrorView::Unauthorized(m@),
            VectaDBError::Internal(m) => ErrorView::Internal(m@),
            VectaDBError::Serialization(m) => ErrorView::Serialization(m@),
        }
    }
}

/// What a failed operation answers a request with.
pub const STATUS_BAD_REQUEST: u16 = 400;

pub const STATUS_UNAUTHORIZED: u16 = 401;

pub const STATUS_NOT_FOUND: u16 = 404;

pub const STATUS_INTERNAL_SERVER_ERROR: u16 = 500;

impl VectaDBError {
    /// The detail that the error carries.
    pub open spec fn detail(&self) -> Seq<char> {
        match *self {
            VectaDBError::SurrealDB(m) => m@,
            VectaDBError::Qdrant(m) => m@,
            VectaDBError::Embedding(m) => m@,
            VectaDBError::Config(m) => m@,
            VectaDBError::NotFound(m) => m@,
            VectaDBError::InvalidInput(m) => m@,
            VectaDBError::Unauthorized(m) => m@,
            VectaDBError::Internal(m) => m@,
            VectaDBError::Serialization(m) => m@,
        }
    }

    /// What stands before the detail when the error is written out.
    pub open spec fn lead(&self) -> Seq<char> {
        match *self {
            VectaDBError::SurrealDB(_) => "SurrealDB error: "@,
            VectaDBError::Qdrant(_) => "Qdrant error: "@,
            VectaDBError::Embedding(_) => "Embedding error: "@,
            VectaDBError::Config(_) => "Configuration error: "@,
            VectaDBError::NotFound(_) => "Not found: "@,
            VectaDBError::InvalidInput(_) => "Invalid input: "@,
            VectaDBError::Unauthorized(_) => "Authentication failed: "@,
            VectaDBError::Internal(_) => "Internal server error: "@,
            VectaDBError::Serialization(_) => "Serialization error: "@,
        }
    }

    /// The status that a request is answered with when it fails by this error.
    pub open spec fn status(&self) -> u16 {
        match *self {
            VectaDBError::NotFound(_) => STATUS_NOT_FOUND,
            VectaDBError::InvalidInput(_) => STATUS_BAD_REQUEST,
            VectaDBError::Unauthorized(_) => STATUS_UNAUTHORIZED,
            _ => STATUS_INTERNAL_SERVER_ERROR,
        }
    }

    /// What stands before the detail in the answer to a request.
    pub open spec fn answer_lead(&self) -> Seq<char> {
        match *self {
            VectaDBError::SurrealDB(_) => "Database error: "@,
            VectaDBError::Qdrant(_) => "Vector DB error: "@,
            VectaDBError::Embedding(_) => "Embedding error: "@,
            VectaDBError::Config(_) => "Config error: "@,
            VectaDBError::Serialization(_) => "Serialization error: "@,
            _ => Seq::empty(),
        }
    }

    fn detail_text(&self) -> (text: &String)
        ensures
            text@ == self.detail(),
    {
        match self {
            VectaDBError::SurrealDB(m) => m,
            VectaDBError::Qdrant(m) => m,
            VectaDBError::Embedding(m) => m,
            VectaDBError::Config(m) => m,
            VectaDBError::NotFound(m) => m,
            VectaDBError::InvalidInput(m) => m,
            VectaDBError::Unauthorized(m) => m,
            VectaDBError::Internal(m) => m,
            VectaDBError::Serialization(m) => m,
        }
    }

    /// The error written out: its kind, then its detail.
    pub fn message(&self) -> (text: String)
        ensures
            text@ == self.lead() + self.detail(),
    {
        let lead = match self {
            VectaDBError::SurrealDB(_) => "SurrealDB error: ",
            VectaDBError::Qdrant(_) => "Qdrant error: ",
            VectaDBError::Embedding(_) => "Embedding error: ",
            VectaDBError::Config(_) => "Configuration error: ",
            VectaDBError::NotFound(_) => "Not found: ",
            VectaDBError::InvalidInput(_) => "Invalid input: ",
            VectaDBError::Unauthorized(_) => "Authentication failed: ",
            VectaDBError::Internal(_) => "Internal server error: ",
            VectaDBError::Serialization(_) => "Serialization error: ",
        };
        concat2(lead, self.detail_text().as_str())
    }

    /// The status that a request is answered with when it fails by this error.
    pub fn status_code(&self) -> (code: u16)
        ensures
            code == self.status(),
    {
        match self {
            VectaDBError::NotFound(_) => STATUS_NOT_FOUND,
            VectaDBError::InvalidInput(_) => STATUS_BAD_REQUEST,
            VectaDBError::Unauthorized(_) => STATUS_UNAUTHORIZED,
            _ => STATUS_INTERNAL_SERVER_ERROR,
        }
    }

    /// The message that a request is answered with when it fails by this error.
    pub fn response_message(&self) -> (text: String)
        ensures
            text@ == self.answer_lead() + self.detail(),
    {
        proof {
            reveal_strlit("");
        }
        let lead = match self {
            VectaDBError::SurrealDB(_) => "Database error: ",
            VectaDBError::Qdrant(_) => "Vector DB error: ",
            VectaDBError::Embedding(_) => "Embedding error: ",
            VectaDBError::Config(_) => "Config error: ",
            VectaDBError::Serialization(_) => "Serialization error: ",
            _ => "",
        };
        assert(""@ =~= Seq::<char>::empty());
        concat2(lead, self.detail_text().as_str())
    }
}

} // verus!
