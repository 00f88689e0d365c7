use std::str::FromStr;

use anchor_lang::prelude::Pubkey;
use quest_rewards::account::{AccountHandle, Mutability, ProgramRef, Role};
use quest_rewards::address::Address;
use quest_rewards::deployment::{is_placeholder, Deployment};
use quest_rewards::error::DeploymentError;
use quest_rewards::system_program::native_transfer_routine;

fn placeholder() -> [u8; 32] {
    let mut bytes = [0u8; 32];
    bytes[31] = 1;
    bytes
}

#[test]
fn native_transfer_routine_is_all_zero() {
    assert_eq!(native_transfer_routine().to_bytes(), [0u8; 32]);
}

#[test]
fn native_transfer_routine_is_the_system_program() {
    let system = Pubkey::from_str("11111111111111111111111111111111").unwrap();
    assert_eq!(native_transfer_routine().to_bytes(), system.to_bytes());
    assert_eq!(native_transfer_routine().to_bytes(), anchor_lang::system_program::ID.to_bytes());
}

#[test]
fn program_reference_is_checked_byte_for_byte() {
    assert!(ProgramRef::new(Address::new([0u8; 32])).is_native_transfer_routine());
    assert!(ProgramRef::new(native_transfer_routine()).is_native_transfer_routine());
    assert!(!ProgramRef::new(Address::new(placeholder())).is_native_transfer_routine());
    let mut first = [0u8; 32];
    first[0] = 1;
    assert!(!ProgramRef::new(Address::new(first)).is_native_transfer_routine());
    assert!(!ProgramRef::new(Address::new([0xFF; 32])).is_native_transfer_routine());
}

#[test]
fn deployment_under_the_placeholder_fails() {
    assert!(matches!(
        Deployment::new(Address::new(placeholder())),
        Err(DeploymentError::PlaceholderIdentity)
    ));
}

#[test]
fn placeholder_is_the_identity_written_with_a_final_two() {
    let written = Pubkey::from_str("11111111111111111111111111111112").unwrap();
    assert_eq!(written.to_bytes(), placeholder());
    assert!(is_placeholder(&Address::new(written.to_bytes())));
    assert!(Deployment::new(Address::new(written.to_bytes())).is_err());
}

#[test]
fn deployment_under_any_other_identity_succeeds() {
    let deployment = Deployment::new(Address::new([7u8; 32])).unwrap();
    assert_eq!(deployment.program_id().to_bytes(), [7u8; 32]);
    assert!(Deployment::new(Address::new([0u8; 32])).is_ok());
    let mut almost = placeholder();
    almost[0] = 1;
    assert!(Deployment::new(Address::new(almost)).is_ok());
    let mut two = placeholder();
    two[31] = 2;
    assert_eq!(Deployment::new(Address::new(two)).unwrap().program_id().to_bytes(), two);
}

#[test]
fn only_the_placeholder_is_a_placeholder() {
    assert!(is_placeholder(&Address::new(placeholder())));
    assert!(!is_placeholder(&Address::new([0u8; 32])));
    assert!(!is_placeholder(&Address::new([1u8; 32])));
    let mut middle = placeholder();
    middle[15] = 1;
    assert!(!is_placeholder(&Address::new(middle)));
}

#[test]
fn addresses_are_the_same_when_all_bytes_are() {
    let mut bytes = [9u8; 32];
    let a = Address::new(bytes);
    assert!(a.same_as(&Address::new(bytes)));
    assert_eq!(a.to_bytes(), bytes);
    bytes[31] = 8;
    assert!(!a.same_as(&Address::new(bytes)));
    bytes[31] = 9;
    bytes[0] = 0;
    assert!(!a.same_as(&Address::new(bytes)));
}

#[test]
fn handles_tell_their_capabilities() {
    let address = Address::new([4u8; 32]);
    let signer = AccountHandle::new(address, Role::Signer, Mutability::Immutable);
    assert!(signer.is_signer());
    assert!(!signer.is_mutable());
    let writable = AccountHandle::new(address, Role::ReadOnly, Mutability::Mutable);
    assert!(!writable.is_signer());
    assert!(writable.is_mutable());
    assert_eq!(writable.address.to_bytes(), [4u8; 32]);
}
