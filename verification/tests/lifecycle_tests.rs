//! Create-or-adopt, typed validation, and the closing sweep on single
//! resources.

use cruiser::error::FrameworkError;
use cruiser::lifecycle::{close_resource, create_or_adopt, validate_discriminant};
use cruiser::rent::RentTable;
use cruiser::{Address, Resource};

fn address_of(byte: u8) -> Address {
    Address { bytes: vec![byte; 32] }
}

fn system_tag() -> Address {
    Address { bytes: vec![0; 32] }
}

fn table() -> RentTable {
    RentTable { lamports_per_byte_year: 3480, exemption_years: 2 }
}

fn fresh_target() -> Resource {
    Resource {
        address: address_of(10),
        owner: system_tag(),
        is_signer: false,
        is_writable: true,
        balance: 0,
        buffer: Vec::new(),
    }
}

fn funder_with(balance: u64) -> Resource {
    Resource {
        address: address_of(11),
        owner: system_tag(),
        is_signer: true,
        is_writable: true,
        balance,
        buffer: Vec::new(),
    }
}

#[test]
fn creating_a_fresh_unowned_resource_succeeds() {
    let program = address_of(1);
    let mut target = fresh_target();
    let mut funder = funder_with(10_000_000);
    let payload = vec![0xaa, 0xbb, 0xcc];
    let needed = table().minimum_balance(1 + payload.len());
    let result = create_or_adopt(&mut target, &mut funder, &program, &table(), 1, 1, &payload);
    assert!(result.is_ok());
    assert_eq!(target.owner.bytes, program.bytes);
    assert_eq!(target.buffer, vec![1, 0xaa, 0xbb, 0xcc]);
    assert_eq!(target.balance, needed);
    assert_eq!(funder.balance, 10_000_000 - needed);
}

#[test]
fn adopting_a_zeroed_program_owned_resource_succeeds() {
    let program = address_of(1);
    let mut target = fresh_target();
    target.owner = address_of(1);
    target.buffer = vec![0; 8];
    target.balance = 10_000_000;
    let mut funder = funder_with(500);
    let result =
        create_or_adopt(&mut target, &mut funder, &program, &table(), 1, 1, &vec![0x42, 0x43]);
    assert!(result.is_ok());
    assert_eq!(target.buffer, vec![1, 0x42, 0x43, 0, 0, 0, 0, 0]);
    assert_eq!(target.balance, 10_000_000);
    assert_eq!(funder.balance, 500);
}

#[test]
fn adopting_a_nonzero_buffer_fails_with_non_zeroed_data() {
    let program = address_of(1);
    let mut target = fresh_target();
    target.owner = address_of(1);
    target.buffer = vec![9; 8];
    let before = target.buffer.clone();
    let mut funder = funder_with(500);
    let result = create_or_adopt(&mut target, &mut funder, &program, &table(), 1, 1, &vec![0x42]);
    match result {
        Err(FrameworkError::NonZeroedData { account }) => {
            assert_eq!(account.bytes, target.address.bytes);
        }
        other => panic!("expected NonZeroedData, got {:?}", other),
    }
    assert_eq!(target.buffer, before);
}

#[test]
fn a_foreign_owner_is_rejected() {
    let program = address_of(1);
    let mut target = fresh_target();
    target.owner = address_of(99);
    let mut funder = funder_with(10_000_000);
    let result = create_or_adopt(&mut target, &mut funder, &program, &table(), 1, 1, &vec![0]);
    match result {
        Err(FrameworkError::AccountOwnerNotEqual { account, owner }) => {
            assert_eq!(account.bytes, target.address.bytes);
            assert_eq!(owner.bytes, vec![99; 32]);
        }
        other => panic!("expected AccountOwnerNotEqual, got {:?}", other),
    }
}

#[test]
fn a_poor_funder_is_rejected() {
    let program = address_of(1);
    let mut target = fresh_target();
    let mut funder = funder_with(3);
    let result = create_or_adopt(&mut target, &mut funder, &program, &table(), 1, 1, &vec![0]);
    match result {
        Err(FrameworkError::NotEnoughLamports { account, lamports, needed_lamports }) => {
            assert_eq!(account.bytes, funder.address.bytes);
            assert_eq!(lamports, 3);
            assert_eq!(needed_lamports, table().minimum_balance(2));
        }
        other => panic!("expected NotEnoughLamports, got {:?}", other),
    }
    assert_eq!(funder.balance, 3);
    assert_eq!(target.balance, 0);
}

#[test]
fn discriminant_mismatch_is_reported_with_both_values() {
    let program = address_of(1);
    let resource = Resource {
        address: address_of(10),
        owner: address_of(1),
        is_signer: false,
        is_writable: true,
        balance: 0,
        buffer: vec![2, 0, 0],
    };
    let result = validate_discriminant(&resource, &program, 1, 1);
    match result {
        Err(FrameworkError::MismatchedDiscriminant { account, received, expected }) => {
            assert_eq!(account.bytes, vec![10; 32]);
            assert_eq!(received, 2);
            assert_eq!(expected, 1);
        }
        other => panic!("expected MismatchedDiscriminant, got {:?}", other),
    }
}

#[test]
fn matching_discriminant_passes() {
    let program = address_of(1);
    let resource = Resource {
        address: address_of(10),
        owner: address_of(1),
        is_signer: false,
        is_writable: true,
        balance: 0,
        buffer: vec![1, 7, 7],
    };
    assert!(validate_discriminant(&resource, &program, 1, 1).is_ok());
}

#[test]
fn an_exhausted_list_reports_insufficient_resources() {
    let program = address_of(1);
    let mut list = cruiser::ResourceList::new(Vec::new());
    let result = cruiser::InitOrZeroedAccount::from_accounts(&program, &mut list);
    assert!(matches!(result, Err(FrameworkError::InsufficientResources)));
}

#[test]
fn construction_picks_the_variant_from_the_owner_tag() {
    let program = address_of(1);
    let mut owned = fresh_target();
    owned.owner = address_of(1);
    let mut list = cruiser::ResourceList::new(vec![owned, fresh_target()]);
    let first = cruiser::InitOrZeroedAccount::from_accounts(&program, &mut list).unwrap();
    assert!(matches!(first, cruiser::InitOrZeroedAccount::Zeroed(_)));
    let second = cruiser::InitOrZeroedAccount::from_accounts(&program, &mut list).unwrap();
    assert!(matches!(second, cruiser::InitOrZeroedAccount::Init(_)));
}

#[test]
fn a_created_resource_is_typed_afterwards() {
    let program = address_of(1);
    let mut target = fresh_target();
    let mut funder = funder_with(10_000_000);
    create_or_adopt(&mut target, &mut funder, &program, &table(), 1, 1, &vec![0; 4]).unwrap();
    assert!(validate_discriminant(&target, &program, 1, 1).is_ok());
}

#[test]
fn closing_sweeps_zeroes_and_disowns() {
    let mut target = Resource {
        address: address_of(10),
        owner: address_of(1),
        is_signer: false,
        is_writable: true,
        balance: 700,
        buffer: vec![1, 2, 3, 4],
    };
    let mut recipient = funder_with(50);
    close_resource(&mut target, &mut recipient);
    assert_eq!(target.balance, 0);
    assert_eq!(target.owner.bytes, vec![0; 32]);
    assert_eq!(target.buffer, vec![0, 0, 0, 0]);
    assert_eq!(recipient.balance, 750);
}
