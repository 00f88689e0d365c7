//! The ways in which a claim, a transfer or a deployment is refused.

use vstd::prelude::*;

verus! {

/// Why the ledger's transfer routine refused a transfer.
#[derive(Clone, Copy, Debug, PartialEq, Eq, Structural)]
pub enum TransferError {
    /// The paying account holds less than the amount asked for.
    InsufficientFunds,
}

/// Why a claim was refused. Every refusal is final for the call: nothing is
/// retried, and no balance has changed.
#[derive(Clone, Copy, Debug, PartialEq, Eq, Structural)]
pub enum ClaimError {
    /// The treasury did not sign.
    AuthorizationError,
    /// The treasury or the player was not handed over as writable.
    AccountPermissionError,
    /// The program reference is not the ledger's native transfer routine.
    InvalidProgramReferenceError,
    /// The amount exceeds what the treasury has available.
    InsufficientFundsError,
}

/// Why a deployment could not be set up.
#[derive(Clone, Copy, Debug, PartialEq, Eq, Structural)]
pub enum DeploymentError {
    /// The program identity is still the placeholder that stands in for a
    /// real one.
    PlaceholderIdentity,
}

impl ClaimError {
    /// The claim's error for a transfer that the ledger refused.
    pub open spec fn of_transfer(error: TransferError) -> ClaimError {
        match error {
            TransferError::InsufficientFunds => ClaimError::InsufficientFundsError,
        }
    }

    /// Hands a refusal of the ledger's transfer routine on to the caller of
    /// the claim.
    pub fn from_transfer(error: TransferError) -> (claim_error: ClaimError)
        ensures
            claim_error == Self::of_transfer(error),
    {
        match error {
            TransferError::InsufficientFunds => ClaimError::InsufficientFundsError,
        }
    }
}

} // verus!
