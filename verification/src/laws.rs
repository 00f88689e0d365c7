//! What holds of claims made one after another.
//!
//! The ledger lets one instruction at a time write to an account. So claims
//! on one treasury take effect in some order, each on what the one before
//! left behind, and what is proved here of two claims in a row holds of any
//! two claims on one ledger.

use vstd::prelude::*;
use crate::address::Address;
use crate::claim::{after_claim, claim_outcome, ClaimReward};
use crate::error::ClaimError;
use crate::ledger::covers_every_account;

verus! {

/// A claim that is refused leaves every balance as it was. So the same claim,
/// made again, is refused again, and for the same reason: nothing builds up
/// from one refusal to the next.
pub proof fn law_refusal_repeats(balances: Map<Address, nat>, accounts: ClaimReward, amount: u64)
    requires
        covers_every_account(balances),
        claim_outcome(balances, accounts, amount) is Err,
    ensures
        after_claim(balances, accounts, amount) == balances,
        claim_outcome(after_claim(balances, accounts, amount), accounts, amount) == claim_outcome(
            balances,
            accounts,
            amount,
        ),
{
}

/// Of two claims on one treasury whose amounts together exceed what the
/// treasury holds, at most one is paid, unless the one that comes first pays
/// the treasury itself. Where the first is paid, the treasury is left with
/// that much less, and the second is refused without effect: for want of
/// funds, where its references are in order. Either of the two claims may
/// be the one that comes first.
pub proof fn law_no_double_spend(
    balances: Map<Address, nat>,
    first: ClaimReward,
    first_amount: u64,
    second: ClaimReward,
    second_amount: u64,
)
    requires
        covers_every_account(balances),
        first.treasury.address == second.treasury.address,
        first.treasury.address != first.player.address,
        first_amount + second_amount > balances[first.treasury.address],
    ensures
        !(claim_outcome(balances, first, first_amount) is Ok && claim_outcome(
            after_claim(balances, first, first_amount),
            second,
            second_amount,
        ) is Ok),
        claim_outcome(balances, first, first_amount) is Ok ==> after_claim(
            balances,
            first,
            first_amount,
        )[second.treasury.address] == balances[first.treasury.address] - first_amount,
        claim_outcome(balances, first, first_amount) is Ok && second.validation() is Ok
            ==> claim_outcome(after_claim(balances, first, first_amount), second, second_amount)
            === Err(ClaimError::InsufficientFundsError),
        claim_outcome(balances, first, first_amount) is Ok ==> after_claim(
            after_claim(balances, first, first_amount),
            second,
            second_amount,
        ) == after_claim(balances, first, first_amount),
{
}

} // verus!
