//! The error taxonomy shared by every module of the marketplace.
//!
//! Each module surfaces one of these variants; the dispatcher passes them on
//! unchanged, and any error aborts the whole call.
use vstd::prelude::*;

verus! {

/// One error union for the whole contract core.
///
/// - `Unauthorized`: the caller fails a capability check.
/// - `NotFound`: a referenced id or record is absent.
/// - `AlreadyExists`: a duplicate id on mint, or re-redeeming a token.
/// - `InvalidState`: an operation attempted outside its lifecycle window
///   (buying from a sale that is not active, migrating from a mismatched
///   contract identity or to a version that is not newer).
/// - `InsufficientFunds`: the attached payment is below the required price.
/// - `Validation`: a malformed address or malformed structured input.
#[derive(Clone, Copy, Debug, PartialEq, Eq, Structural)]
pub enum ContractError {
    Unauthorized,
    NotFound,
    AlreadyExists,
    InvalidState,
    InsufficientFunds,
    Validation,
}

} // verus!
