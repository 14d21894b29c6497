//! Classification of server responses into the small outcome taxonomy that
//! every request of this client resolves to.

use vstd::prelude::*;

verus! {

/// Result of one administrative request, classified from the transport-level
/// status code. `Unauthorized` always wins over the operation's own
/// expected-success code: a 401 means the credentials are invalid whatever
/// the operation hoped for.
#[derive(Clone, Copy, PartialEq, Eq, Structural, Debug)]
pub enum Outcome {
    Success,
    Unauthorized,
    UnexpectedStatus(u16),
}

/// A condition after which the session cannot usefully continue. The caller
/// (a command dispatcher) decides how to halt; the core only reports it.
#[derive(Clone, Copy, PartialEq, Eq, Structural, Debug)]
pub enum FatalError {
    /// The authentication endpoint answered with anything but success:
    /// no token exists and no later operation may run.
    AuthFailed,
    /// A username lookup matched no record.
    NotFound,
    /// A success-status response body failed to decode into the expected
    /// structure.
    DecodeFailure,
    /// The server rejected the credentials during a lookup that later
    /// operations depend on.
    Unauthorized,
    /// Any other status during such a lookup, surfaced verbatim.
    UnexpectedStatus(u16),
}

pub const STATUS_OK: u16 = 200;
pub const STATUS_NO_CONTENT: u16 = 204;
pub const STATUS_UNAUTHORIZED: u16 = 401;

/// What `interpret` returns: 401 is uniformly `Unauthorized`, the
/// operation-specific success code gives `Success`, anything else is
/// surfaced verbatim.
pub open spec fn spec_interpret(status: u16, expected_success: u16) -> Outcome {
    if status == STATUS_UNAUTHORIZED {
        Outcome::Unauthorized
    } else if status == expected_success {
        Outcome::Success
    } else {
        Outcome::UnexpectedStatus(status)
    }
}

/// Classify a status code against the expected-success code of the
/// operation that made the request.
pub fn interpret(status: u16, expected_success: u16) -> (r: Outcome)
    ensures
        r == spec_interpret(status, expected_success),
{
    if status == STATUS_UNAUTHORIZED {
        Outcome::Unauthorized
    } else if status == expected_success {
        Outcome::Success
    } else {
        Outcome::UnexpectedStatus(status)
    }
}

} // verus!
