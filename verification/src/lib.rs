//! Quest rewards: the rules of a single ledger instruction, `claim_reward`,
//! which pays a reward out of a treasury account to a player account.
//!
//! The instruction is given three references (the treasury, which must have
//! signed; the player; the ledger's native transfer routine) and an amount.
//! It validates the references once, on entry, and then asks the ledger for a
//! single transfer. Either both balances change or nothing does.

pub mod account;
pub mod address;
pub mod claim;
pub mod deployment;
pub mod error;
pub mod laws;
pub mod ledger;
pub mod system_program;

pub use crate::claim::{claim_reward, ClaimReward};
