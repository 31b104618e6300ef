//! Failure kinds of the store layer and of the outward surface.

use vstd::prelude::*;

verus! {

/// What can go wrong when the store is asked to do something.
#[derive(Debug, Clone, Copy, PartialEq, Eq, Structural)]
pub enum PostgresError {
    /// No connection to the store could be acquired.
    Connection,
    /// A transaction could not be started or committed.
    Transaction,
    /// A single statement failed.
    Query,
    /// A nested payload did not have the expected shape.
    DataConversion,
    /// An update or delete matched no row.
    NotFoundOrConflict,
}

impl PostgresError {
    /// The text that describes this failure in server-side logs.
    pub open spec fn message_spec(self) -> Seq<char> {
        match self {
            PostgresError::Connection => "failed to acquire a database connection"@,
            PostgresError::Transaction => "failed to start/commit transaction"@,
            PostgresError::Query => "a query related error occured"@,
            PostgresError::DataConversion => "failed to convert data to postgres specific data type"@,
            PostgresError::NotFoundOrConflict => "no row matched the given id"@,
        }
    }

    /// Renders the failure for the log.
    pub fn message(&self) -> (text: String)
        ensures
            text@ == self.message_spec(),
    {
        match self {
            PostgresError::Connection => "failed to acquire a database connection".to_owned(),
            PostgresError::Transaction => "failed to start/commit transaction".to_owned(),
            PostgresError::Query => "a query related error occured".to_owned(),
            PostgresError::DataConversion => "failed to convert data to postgres specific data type".to_owned(),
            PostgresError::NotFoundOrConflict => "no row matched the given id".to_owned(),
        }
    }
}

/// The one failure that a client gets to see.
#[derive(Debug, Clone, Copy, PartialEq, Eq, Structural)]
pub enum ApiError {
    InternalServerError,
}

/// The body of a failure answer: the error and its description.
#[derive(Debug)]
pub struct ErrorResponse {
    pub error: ApiError,
    pub description: String,
}

impl ApiError {
    /// The text that describes this error to a client.
    pub open spec fn description_spec(self) -> Seq<char> {
        "an internal server error occured"@
    }

    /// The HTTP status that goes with this error.
    pub open spec fn status_spec(self) -> u16 {
        500
    }

    /// Describes the error to a client.
    pub fn description(&self) -> (text: String)
        ensures
            text@ == self.description_spec(),
    {
        match self {
            ApiError::InternalServerError => "an internal server error occured".to_owned(),
        }
    }

    /// The HTTP status that goes with this error.
    pub fn status_code(&self) -> (status: u16)
        ensures
            status == self.status_spec(),
    {
        match self {
            ApiError::InternalServerError => 500,
        }
    }

    /// What a client is told when the store failed: whatever the cause,
    /// nothing of it is passed on.
    pub fn from_store(cause: PostgresError) -> (error: ApiError)
        ensures
            error == ApiError::InternalServerError,
    {
        ApiError::InternalServerError
    }

    /// The body of the answer that reports this error.
    pub fn error_response(&self) -> (body: ErrorResponse)
        ensures
            body.error == *self,
            body.description@ == self.description_spec(),
    {
        ErrorResponse { error: *self, description: self.description() }
    }
}

} // verus!
