//! The ledger's native transfer routine, and how it is told from any other
//! program.

use vstd::prelude::*;
use crate::address::Address;

verus! {

/// The bytes of the address under which the ledger keeps its native transfer
/// routine: thirty-two zero bytes.
pub open spec fn native_transfer_routine_id() -> Seq<u8> {
    Seq::new(32, |i: int| 0u8)
}

/// Reads `anchor_lang::system_program::ID`, the identity that the runtime's
/// crate declares for the system program, and hands out its bytes as
/// `Pubkey::to_bytes` gives them.
///
/// Trusted, not proved: that crate declares the identity by the base-58 text
/// of thirty-two `1`s, and `1` is the digit zero there, so its thirty-two
/// bytes are all zero.
#[verifier::external_body]
fn system_program_id() -> (id: [u8; 32])
    ensures
        id@ == native_transfer_routine_id(),
{
    anchor_lang::system_program::ID.to_bytes()
}

/// The address of the ledger's native transfer routine.
pub fn native_transfer_routine() -> (address: Address)
    ensures
        address@ == native_transfer_routine_id(),
{
    Address::new(system_program_id())
}

} // verus!
