use vstd::prelude::*;

verus! {

/// The failure taxonomy of the service: the pool could not hand out a
/// connection, a query or write failed, or the row a patch targets does not
/// exist. The last kind is surfaced distinctly so callers can answer with a
/// not-found status instead of a generic failure.
#[derive(Debug, Clone, Copy, PartialEq, Eq, Structural)]
pub enum TodoError {
    ConnectionError,
    StorageError,
    NotFoundError,
}

/// HTTP status that each error kind maps to.
pub open spec fn status_of(e: TodoError) -> u16 {
    match e {
        TodoError::ConnectionError => 503,
        TodoError::StorageError => 500,
        TodoError::NotFoundError => 404,
    }
}

/// Stable name of each error kind, for the `kind` field of an error body.
pub open spec fn kind_of(e: TodoError) -> Seq<char> {
    match e {
        TodoError::ConnectionError => "ConnectionError"@,
        TodoError::StorageError => "StorageError"@,
        TodoError::NotFoundError => "NotFoundError"@,
    }
}

/// Human-readable explanation of each error kind, for the `message` field.
pub open spec fn message_of(e: TodoError) -> Seq<char> {
    match e {
        TodoError::ConnectionError => "no storage connection is available"@,
        TodoError::StorageError => "the storage operation failed"@,
        TodoError::NotFoundError => "no row with the requested id exists"@,
    }
}

impl TodoError {
    /// The status code of this error kind: connection exhaustion is a
    /// service-unavailable condition, a missing patch target is not-found,
    /// and any other storage failure is an internal error.
    pub fn status_code(&self) -> (code: u16)
        ensures
            code == status_of(*self),
    {
        match self {
            TodoError::ConnectionError => 503,
            TodoError::StorageError => 500,
            TodoError::NotFoundError => 404,
        }
    }

    /// The `kind` half of the structured error body.
    pub fn kind(&self) -> (s: String)
        ensures
            s@ == kind_of(*self),
    {
        match self {
            TodoError::ConnectionError => "ConnectionError".to_owned(),
            TodoError::StorageError => "StorageError".to_owned(),
            TodoError::NotFoundError => "NotFoundError".to_owned(),
        }
    }

    /// The `message` half of the structured error body.
    pub fn message(&self) -> (s: String)
        ensures
            s@ == message_of(*self),
    {
        match self {
            TodoError::ConnectionError => "no storage connection is available".to_owned(),
            TodoError::StorageError => "the storage operation failed".to_owned(),
            TodoError::NotFoundError => "no row with the requested id exists".to_owned(),
        }
    }
}

} // verus!
