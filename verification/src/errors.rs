//! The failure taxonomy of the lifecycle controller.

use vstd::prelude::*;

verus! {

/// Why an operation was rejected. Every failure is terminal for the
/// operation and leaves every account and record exactly as it was.
#[derive(Clone, Copy, Debug, PartialEq, Eq, Structural)]
pub enum EscrowError {
    /// An identity mismatch, an insufficient or inconsistent amount, or a
    /// stale account reference.
    PreconditionViolation,
    /// The custody record or vault was already consumed, or never created.
    NotFound,
    /// A transfer or reassignment was attempted without the account's
    /// current control authority.
    AuthorityViolation,
    /// The storage for a record or vault was not freshly allocated.
    AllocationFailure,
}

} // verus!
