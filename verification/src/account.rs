//! References to accounts and programs, as the ledger hands them to an
//! instruction, each with the capabilities it was handed over with.

use vstd::prelude::*;
use crate::address::Address;
use crate::system_program::{native_transfer_routine, native_transfer_routine_id};

verus! {

/// Whether the account behind a reference authorised the transaction.
#[derive(Clone, Copy, Debug, PartialEq, Eq, Structural)]
pub enum Role {
    /// The account signed the transaction.
    Signer,
    /// The account is referred to only: it did not sign.
    ReadOnly,
}

/// Whether the instruction may change the account behind a reference.
#[derive(Clone, Copy, Debug, PartialEq, Eq, Structural)]
pub enum Mutability {
    /// The balance of the account may change.
    Mutable,
    /// The account may only be looked at.
    Immutable,
}

/// A reference to an account: its address, and with which capabilities the
/// ledger handed it to the instruction. The account itself, and its balance,
/// stay with the ledger.
#[derive(Clone, Copy, Debug)]
pub struct AccountHandle {
    pub address: Address,
    pub role: Role,
    pub mutability: Mutability,
}

impl AccountHandle {
    /// A reference to the account at `address`.
    pub fn new(address: Address, role: Role, mutability: Mutability) -> (handle: AccountHandle)
        ensures
            handle == (AccountHandle { address, role, mutability }),
    {
        AccountHandle { address, role, mutability }
    }

    /// Whether the account signed the transaction.
    pub fn is_signer(&self) -> (signed: bool)
        ensures
            signed == (self.role == Role::Signer),
    {
        match self.role {
            Role::Signer => true,
            Role::ReadOnly => false,
        }
    }

    /// Whether the instruction may change the account.
    pub fn is_mutable(&self) -> (mutable: bool)
        ensures
            mutable == (self.mutability == Mutability::Mutable),
    {
        match self.mutability {
            Mutability::Mutable => true,
            Mutability::Immutable => false,
        }
    }
}

/// A reference to a program on the ledger. It is only ever looked at.
#[derive(Clone, Copy, Debug)]
pub struct ProgramRef {
    pub address: Address,
}

impl ProgramRef {
    /// A reference to the program at `address`.
    pub fn new(address: Address) -> (program: ProgramRef)
        ensures
            program == (ProgramRef { address }),
    {
        ProgramRef { address }
    }

    /// Whether this reference names the ledger's native transfer routine.
    pub open spec fn names_native_transfer_routine(&self) -> bool {
        self.address@ == native_transfer_routine_id()
    }

    /// Whether this reference names the ledger's native transfer routine.
    pub fn is_native_transfer_routine(&self) -> (native: bool)
        ensures
            native == self.names_native_transfer_routine(),
    {
        let canonical = native_transfer_routine();
        self.address.same_as(&canonical)
    }
}

} // verus!
