//! The identity under which the program is deployed.
//!
//! The identity is configuration: it is handed in when the deployment is set
//! up, and a deployment cannot be set up while it is still the placeholder.

use vstd::prelude::*;
use crate::address::Address;
use crate::error::DeploymentError;

verus! {

/// The bytes of the placeholder that stands in for a program identity until
/// a real one is configured: thirty-one zero bytes, then a one.
pub open spec fn placeholder_program_id() -> Seq<u8> {
    Seq::new(32, |i: int| if i == 31 { 1u8 } else { 0u8 })
}

/// Whether `address` is the placeholder for a program identity.
pub fn is_placeholder(address: &Address) -> (placeholder: bool)
    ensures
        placeholder == (address@ == placeholder_program_id()),
{
    let mut i: usize = 0;
    while i < 31
        invariant
            i <= 31,
            forall|k: int| 0 <= k < i ==> address.bytes@[k] == 0,
        decreases 31 - i,
    {
        if address.bytes[i] != 0 {
            assert(address@[i as int] != placeholder_program_id()[i as int]);
            return false;
        }
        i += 1;
    }
    if address.bytes[31] != 1 {
        assert(address@[31] != placeholder_program_id()[31]);
        return false;
    }
    assert(address@ =~= placeholder_program_id());
    true
}

/// The program as deployed: it knows its own identity, and that identity is
/// never the placeholder.
pub struct Deployment {
    program_id: Address,
}

impl Deployment {
    /// The identity of the deployed program.
    pub closed spec fn id(&self) -> Address {
        self.program_id
    }

    /// Every deployment is configured: its identity is not the placeholder.
    #[verifier::type_invariant]
    pub open spec fn configured(self) -> bool {
        self.id()@ != placeholder_program_id()
    }

    /// Sets the program up under `program_id`. Fails at once where that is
    /// still the placeholder, and on no other identity.
    pub fn new(program_id: Address) -> (result: Result<Deployment, DeploymentError>)
        ensures
            result is Err <==> program_id@ == placeholder_program_id(),
            result matches Ok(deployment) ==> deployment.id() == program_id,
            result matches Err(error) ==> error == DeploymentError::PlaceholderIdentity,
    {
        if is_placeholder(&program_id) {
            Err(DeploymentError::PlaceholderIdentity)
        } else {
            Ok(Deployment { program_id })
        }
    }

    /// The identity of the deployed program.
    pub fn program_id(&self) -> (id: Address)
        ensures
            id == self.id(),
            id@ != placeholder_program_id(),
    {
        proof {
            use_type_invariant(self);
        }
        self.program_id
    }
}

} // verus!
