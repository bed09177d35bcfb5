//! Failure taxonomy of the pool, and the classification that decides which
//! failures the retry policy may absorb.

use vstd::prelude::*;

verus! {

/// The one status code a remote node reports when it is temporarily
/// overloaded. A remote failure carrying exactly this code is the sole
/// trigger for an automatic retry; every other failure surfaces at once.
pub const TRANSIENT_ERROR_CODE: i32 = 500;

/// Everything that can go wrong while constructing the pool or invoking a
/// call through it.
#[derive(Debug, Clone)]
pub enum ClientError {
    /// The configuration document could not be parsed or re-serialized.
    /// Fatal; never retried.
    Configuration { message: String },
    /// A checkpoint refresh was requested but no bootstrap node answered.
    /// Fatal at construction; no slot is created.
    CheckpointUnavailable,
    /// A per-slot keystore directory could not be provisioned.
    /// Fatal at construction.
    Filesystem { message: String },
    /// The remote node rejected or failed a call, reporting a numeric
    /// status code. Retried only when the code is `TRANSIENT_ERROR_CODE`.
    Remote { code: i32, message: String },
    /// An internal invariant was violated. Always surfaced.
    Internal { message: String },
}

/// The status code embedded in a failure, when it carries one: only a
/// remote failure does.
pub open spec fn spec_error_code(e: ClientError) -> Option<i32> {
    match e {
        ClientError::Remote { code, .. } => Some(code),
        _ => None,
    }
}

/// A failure is transient exactly when it is a remote failure whose
/// embedded status code is `TRANSIENT_ERROR_CODE`.
pub open spec fn is_transient(e: ClientError) -> bool {
    spec_error_code(e) == Some(TRANSIENT_ERROR_CODE)
}

/// Extracts the numeric status code of a remote failure, if any.
pub fn maybe_error_code(error: &ClientError) -> (r: Option<i32>)
    ensures
        r == spec_error_code(*error),
{
    if let ClientError::Remote { code, .. } = error {
        Some(*code)
    } else {
        None
    }
}

/// Decides whether a failed call may be re-attempted: true exactly for a
/// remote failure with the transient status code.
pub fn retry_condition(error: &ClientError) -> (r: bool)
    ensures
        r == is_transient(*error),
{
    match maybe_error_code(error) {
        Some(code) => code == TRANSIENT_ERROR_CODE,
        None => false,
    }
}

} // verus!
