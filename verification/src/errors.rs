//! Error taxonomy of the service.
//!
//! Token-verification failures are collapsed into a single unauthenticated
//! outcome at the service boundary; a missing resource and an ownership
//! mismatch are deliberately indistinguishable.

use vstd::prelude::*;

verus! {

/// Why a token failed verification. The distinction is internal diagnostics
/// only; callers surface both as one unauthenticated outcome.
#[derive(Clone, Copy, Debug, PartialEq, Eq, Structural)]
pub enum TokenError {
    /// The token could not be parsed, or its signature does not match.
    Invalid,
    /// The token parsed and its signature matched, but its expiry has passed.
    Expired,
}

/// Why a store operation failed.
#[derive(Clone, Copy, Debug, PartialEq, Eq, Structural)]
pub enum StoreError {
    /// Registration found the username already taken.
    DuplicateUsername,
    /// Todo creation found no account for the authenticated identity.
    OwnerNotFound,
}

/// Service-level outcome, mapped by the surrounding program onto HTTP
/// statuses: unauthenticated, missing resource (or ownership mismatch,
/// indistinguishable), duplicate username, and internal failure.
#[derive(Clone, Copy, Debug, PartialEq, Eq, Structural)]
pub enum ApiError {
    Unauthenticated,
    NotFound,
    Conflict,
    Internal,
}

} // verus!
