//! The claim instruction: pays a reward out of the treasury to a player.

use vstd::prelude::*;
use crate::account::{AccountHandle, Mutability, ProgramRef, Role};
use crate::address::Address;
use crate::deployment::Deployment;
use crate::error::ClaimError;
use crate::ledger::{after_transfer, covers_every_account, Ledger, TransferRequest};

verus! {

/// The references that a claim is made with.
#[derive(Clone, Copy, Debug)]
pub struct ClaimReward {
    /// The account that pays. It must have signed, and be writable.
    pub treasury: AccountHandle,
    /// The account that is paid. It need not sign, and must be writable.
    pub player: AccountHandle,
    /// The routine that is to move the tokens. It must be the ledger's
    /// native transfer routine.
    pub system_program: ProgramRef,
}

impl ClaimReward {
    /// The references for a claim.
    pub fn new(treasury: AccountHandle, player: AccountHandle, system_program: ProgramRef) -> (accounts:
        ClaimReward)
        ensures
            accounts == (ClaimReward { treasury, player, system_program }),
    {
        ClaimReward { treasury, player, system_program }
    }

    /// What the check of the references finds. Where more than one thing is
    /// wrong, the first of these is reported: the treasury did not sign; the
    /// program is not the native transfer routine; the treasury or the
    /// player is not writable.
    pub open spec fn validation(&self) -> Result<(), ClaimError> {
        if self.treasury.role != Role::Signer {
            Err(ClaimError::AuthorizationError)
        } else if !self.system_program.names_native_transfer_routine() {
            Err(ClaimError::InvalidProgramReferenceError)
        } else if self.treasury.mutability != Mutability::Mutable || self.player.mutability
            != Mutability::Mutable {
            Err(ClaimError::AccountPermissionError)
        } else {
            Ok(())
        }
    }

    /// Checks the references, once and for all: no balance is looked at.
    pub fn validate(&self) -> (result: Result<(), ClaimError>)
        ensures
            result == self.validation(),
    {
        if !self.treasury.is_signer() {
            Err(ClaimError::AuthorizationError)
        } else if !self.system_program.is_native_transfer_routine() {
            Err(ClaimError::InvalidProgramReferenceError)
        } else if !self.treasury.is_mutable() || !self.player.is_mutable() {
            Err(ClaimError::AccountPermissionError)
        } else {
            Ok(())
        }
    }
}

/// What a claim of `amount` returns, given what every account holds: the
/// finding of the check of the references, where that is a refusal; else a
/// refusal for want of funds, where the treasury holds less than `amount`;
/// else success.
pub open spec fn claim_outcome(
    balances: Map<Address, nat>,
    accounts: ClaimReward,
    amount: u64,
) -> Result<(), ClaimError>
    recommends
        covers_every_account(balances),
{
    if accounts.validation() is Err {
        accounts.validation()
    } else if amount > balances[accounts.treasury.address] {
        Err(ClaimError::InsufficientFundsError)
    } else {
        Ok(())
    }
}

/// What every account holds after a claim of `amount`: where the claim
/// succeeds, `amount` has moved from the treasury to the player; where it is
/// refused, nothing has changed.
pub open spec fn after_claim(
    balances: Map<Address, nat>,
    accounts: ClaimReward,
    amount: u64,
) -> Map<Address, nat>
    recommends
        covers_every_account(balances),
{
    if claim_outcome(balances, accounts, amount) is Ok {
        after_transfer(balances, accounts.treasury.address, accounts.player.address, amount)
    } else {
        balances
    }
}

/// Pays `amount` out of the treasury to the player.
///
/// The references are checked on entry; then the ledger's transfer routine
/// is asked, once, to move `amount`. On success the treasury holds `amount`
/// less and the player `amount` more. On any refusal no balance has changed.
/// The deployment stands for the configured program: there is none while the
/// program identity is still the placeholder, so no claim runs under it.
pub fn claim_reward(
    deployment: &Deployment,
    ledger: &mut Ledger,
    accounts: &ClaimReward,
    amount: u64,
) -> (result: Result<(), ClaimError>)
    ensures
        // What is returned, and what every account holds afterwards.
        result == claim_outcome(old(ledger)@, *accounts, amount),
        final(ledger)@ == after_claim(old(ledger)@, *accounts, amount),
        // Each refusal, and success, with the claims on which it comes.
        accounts.treasury.role != Role::Signer ==> result === Err(ClaimError::AuthorizationError),
        accounts.treasury.role == Role::Signer
            && !accounts.system_program.names_native_transfer_routine() ==> result === Err(
            ClaimError::InvalidProgramReferenceError,
        ),
        accounts.validation() is Ok && amount > old(ledger)@[accounts.treasury.address]
            ==> result === Err(ClaimError::InsufficientFundsError),
        accounts.validation() is Ok && amount <= old(ledger)@[accounts.treasury.address]
            ==> result is Ok,
        // Success moves `amount`, and nothing else.
        result is Ok && accounts.treasury.address != accounts.player.address
            ==> final(ledger)@[accounts.treasury.address] == old(ledger)@[accounts.treasury.address]
            - amount,
        result is Ok && accounts.treasury.address != accounts.player.address
            ==> final(ledger)@[accounts.player.address] == old(ledger)@[accounts.player.address]
            + amount,
        result is Ok && (amount == 0 || accounts.treasury.address == accounts.player.address)
            ==> final(ledger)@ == old(ledger)@,
        result is Ok ==> forall|other: Address|
            other != accounts.treasury.address && other != accounts.player.address
                ==> final(ledger)@[other] == old(ledger)@[other],
        // A refusal changes nothing.
        result is Err ==> final(ledger)@ == old(ledger)@,
        // The transfer routine is asked once, where the references are in
        // order, and not at all, where they are not.
        accounts.validation() is Ok ==> final(ledger).requests() == old(ledger).requests().push(
            (TransferRequest {
                from: accounts.treasury.address,
                to: accounts.player.address,
                amount,
            }),
        ),
        accounts.validation() is Err ==> final(ledger).requests() == old(ledger).requests(),
        // Nothing is made or lost.
        final(ledger)@[accounts.treasury.address] + final(ledger)@[accounts.player.address]
            == old(ledger)@[accounts.treasury.address] + old(ledger)@[accounts.player.address],
        final(ledger).supply() == old(ledger).supply(),
        // The program that ran was configured.
        deployment.configured(),
{
    proof {
        use_type_invariant(deployment);
    }
    if let Err(refusal) = accounts.validate() {
        return Err(refusal);
    }
    match ledger.transfer(&accounts.treasury.address, &accounts.player.address, amount) {
        Ok(()) => Ok(()),
        Err(refusal) => Err(ClaimError::from_transfer(refusal)),
    }
}

} // verus!
