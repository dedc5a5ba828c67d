//! What the two health endpoints answer.

use vstd::prelude::*;

verus! {

/// The HTTP status of a health response.
#[derive(Clone, Copy, Debug, PartialEq, Eq, Structural)]
pub enum Status {
    /// 200 OK.
    Success,
    /// 500 Internal Server Error.
    ServerError,
}

impl Status {
    /// The numeric HTTP status code.
    pub open spec fn spec_code(self) -> u16 {
        match self {
            Status::Success => 200,
            Status::ServerError => 500,
        }
    }

    /// Whether the status is in the 2xx class.
    pub open spec fn spec_is_success(self) -> bool {
        200 <= self.spec_code() < 300
    }

    /// The numeric HTTP status code.
    #[verifier::when_used_as_spec(spec_code)]
    pub fn code(self) -> (code: u16)
        ensures
            code == self.spec_code(),
    {
        match self {
            Status::Success => 200,
            Status::ServerError => 500,
        }
    }

    /// Whether the status is in the 2xx class.
    #[verifier::when_used_as_spec(spec_is_success)]
    pub fn is_success(self) -> (success: bool)
        ensures
            success == self.spec_is_success(),
    {
        let code: u16 = self.code();
        200 <= code && code < 300
    }
}

/// The query that the readiness endpoint probes the database with, once for
/// each request.
pub const PROBE_QUERY: &'static str = "SELECT 1";

/// The status that the readiness endpoint answers, given whether the probe
/// of the database succeeded.
pub open spec fn readiness_status(probe_succeeded: bool) -> Status {
    if probe_succeeded {
        Status::Success
    } else {
        Status::ServerError
    }
}

/// Liveness: the process is up, so the answer is always 200, whatever the
/// state of the database.
pub fn health_check() -> (status: Status)
    ensures
        status == Status::Success,
        status.spec_code() == 200,
        status.spec_is_success(),
{
    Status::Success
}

/// Readiness: maps the outcome of the single probe query to a status.
///
/// A probe that returned a row gives 200. Any failure gives 500: the cause
/// (refused connection, rejected credentials, timeout, query error) is not
/// told apart.
pub fn health_check_db<T, E>(row: &Result<T, E>) -> (status: Status)
    ensures
        status == readiness_status(row is Ok),
        status.spec_code() == (if row is Ok { 200u16 } else { 500u16 }),
        status.spec_is_success() <==> row is Ok,
{
    match row {
        Ok(_) => Status::Success,
        Err(_) => Status::ServerError,
    }
}

} // verus!
