//! The error taxonomy of the registry.

use vstd::prelude::*;

verus! {

/// Storage-level failure signal, normalized across backends.
///
/// Every backend must report an insert that lost against the uniqueness
/// constraint on the code column as [`StoreError::UniqueViolation`], and
/// every other failure as [`StoreError::Other`]; the create protocol's
/// conflict recovery depends on this distinction alone.
#[derive(Clone, Copy, Debug, PartialEq, Eq, Structural)]
pub enum StoreError {
    /// The insert was refused because the code already exists.
    UniqueViolation,
    /// Connectivity, permission or any other unexpected storage failure.
    Other,
}

/// Errors surfaced by the create operation.
#[derive(Clone, Copy, Debug, PartialEq, Eq, Structural)]
pub enum CreateError {
    /// The input did not parse as an absolute URL with a host.
    /// No storage access is attempted in this case.
    InvalidUrl,
    /// The storage layer failed, or conflict recovery found no winner.
    /// Backend details are never leaked to the caller.
    StorageFault,
}

/// Outcome of the delete operation. Deleting a code that does not exist
/// reports [`DeleteOutcome::NotFound`]; it is a normal outcome, not a fault.
#[derive(Clone, Copy, Debug, PartialEq, Eq, Structural)]
pub enum DeleteOutcome {
    /// Exactly one row held the code and it was removed.
    Deleted,
    /// No row held the code.
    NotFound,
}

/// Refusal of the delete path: the Authorization header does not carry the
/// configured bearer token.
#[derive(Clone, Copy, Debug, PartialEq, Eq, Structural)]
pub enum AuthError {
    /// The header is missing, malformed, or holds the wrong token.
    Unauthorized,
}

} // verus!
