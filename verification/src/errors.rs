//! The ways in which a request can fail, and how each is shown to the client.

use vstd::prelude::*;

verus! {

/// Why a request failed.
#[derive(Debug, Clone, Copy, PartialEq, Eq, Structural)]
pub enum ApiError {
    /// The pool had no connection to give before it gave up waiting.
    PoolExhausted,
    /// The pool could not establish or validate a connection.
    ConnectionInvalid,
    /// The payload did not deserialize into the shape the operation expects.
    BadRequest,
    /// The store reported an error for a select.
    QueryFailed,
    /// The store reported an error for an insert.
    InsertFailed,
}

impl ApiError {
    /// The status with which the failure is answered.
    pub open spec fn spec_status(self) -> u16 {
        match self {
            ApiError::BadRequest => 400,
            ApiError::QueryFailed => 500,
            ApiError::InsertFailed => 500,
            ApiError::PoolExhausted => 503,
            ApiError::ConnectionInvalid => 503,
        }
    }

    /// The code that names the failure in the body of the answer.
    pub open spec fn spec_code(self) -> Seq<char> {
        match self {
            ApiError::PoolExhausted => "pool_exhausted"@,
            ApiError::ConnectionInvalid => "connection_invalid"@,
            ApiError::BadRequest => "bad_request"@,
            ApiError::QueryFailed => "query_failed"@,
            ApiError::InsertFailed => "insert_failed"@,
        }
    }

    /// The sentence that explains the failure in the body of the answer.
    pub open spec fn spec_message(self) -> Seq<char> {
        match self {
            ApiError::PoolExhausted => "no database connection became available"@,
            ApiError::ConnectionInvalid => "no valid database connection could be established"@,
            ApiError::BadRequest => "the payload does not have the expected shape"@,
            ApiError::QueryFailed => "the records could not be loaded"@,
            ApiError::InsertFailed => "the record could not be saved"@,
        }
    }

    /// Whether the failure lies with the request rather than with the service.
    pub open spec fn is_client_fault(self) -> bool {
        self == ApiError::BadRequest
    }

    /// The status with which the failure is answered: 400 for a payload that
    /// was refused, 503 where the pool gave no connection, 500 where a
    /// statement failed.
    pub fn status(self) -> (status: u16)
        ensures
            status == self.spec_status(),
    {
        match self {
            ApiError::BadRequest => 400,
            ApiError::QueryFailed => 500,
            ApiError::InsertFailed => 500,
            ApiError::PoolExhausted => 503,
            ApiError::ConnectionInvalid => 503,
        }
    }

    /// The code that names the failure in the body of the answer.
    pub fn code(self) -> (code: &'static str)
        ensures
            code@ == self.spec_code(),
    {
        match self {
            ApiError::PoolExhausted => "pool_exhausted",
            ApiError::ConnectionInvalid => "connection_invalid",
            ApiError::BadRequest => "bad_request",
            ApiError::QueryFailed => "query_failed",
            ApiError::InsertFailed => "insert_failed",
        }
    }

    /// The sentence that explains the failure in the body of the answer.
    pub fn message(self) -> (message: &'static str)
        ensures
            message@ == self.spec_message(),
    {
        match self {
            ApiError::PoolExhausted => "no database connection became available",
            ApiError::ConnectionInvalid => "no valid database connection could be established",
            ApiError::BadRequest => "the payload does not have the expected shape",
            ApiError::QueryFailed => "the records could not be loaded",
            ApiError::InsertFailed => "the record could not be saved",
        }
    }
}

/// A failure is answered in the 4xx range exactly when the request is at
/// fault, and in the 5xx range otherwise.
pub proof fn law_status_tells_whose_fault(error: ApiError)
    ensures
        error.is_client_fault() <==> 400 <= error.spec_status() < 500,
        !error.is_client_fault() <==> 500 <= error.spec_status() < 600,
{
}

/// The code in the body tells the failures apart.
pub proof fn law_codes_differ(a: ApiError, b: ApiError)
    requires
        a.spec_code() == b.spec_code(),
    ensures
        a == b,
{
    reveal_strlit("pool_exhausted");
    reveal_strlit("connection_invalid");
    reveal_strlit("bad_request");
    reveal_strlit("query_failed");
    reveal_strlit("insert_failed");
    assert("pool_exhausted"@.len() == 14);
    assert("connection_invalid"@.len() == 18);
    assert("bad_request"@.len() == 11);
    assert("query_failed"@.len() == 12);
    assert("insert_failed"@.len() == 13);
}

} // verus!
