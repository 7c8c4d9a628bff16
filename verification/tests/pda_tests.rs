//! Deterministic address derivation and verification.

use cruiser::error::FrameworkError;
use cruiser::pda::{find_address, signing_seed_set, verify_address, Seeder};
use cruiser::Address;

fn address_of(byte: u8) -> Address {
    Address { bytes: vec![byte; 32] }
}

fn escrow_seeder() -> Seeder {
    Seeder { seeds: vec![b"escrow".to_vec()] }
}

#[test]
fn derive_is_deterministic() {
    let program = address_of(7);
    let (a1, b1) = find_address(&escrow_seeder(), &program).unwrap();
    let (a2, b2) = find_address(&escrow_seeder(), &program).unwrap();
    assert_eq!(a1.bytes, a2.bytes);
    assert_eq!(b1, b2);
}

#[test]
fn derive_matches_host_reference() {
    let program = address_of(7);
    let (address, bump) = find_address(&escrow_seeder(), &program).unwrap();
    let pid = solana_program::pubkey::Pubkey::from([7u8; 32]);
    let (expected, expected_bump) =
        solana_program::pubkey::Pubkey::find_program_address(&[b"escrow"], &pid);
    assert_eq!(address.bytes, expected.to_bytes().to_vec());
    assert_eq!(bump, expected_bump);
}

#[test]
fn verify_accepts_derived_address_with_same_bump() {
    let program = address_of(9);
    let (address, bump) = find_address(&escrow_seeder(), &program).unwrap();
    let verified = verify_address(&address, &escrow_seeder(), &program).unwrap();
    assert_eq!(verified, bump);
}

#[test]
fn verify_rejects_other_address() {
    let program = address_of(9);
    let (address, _) = find_address(&escrow_seeder(), &program).unwrap();
    let mut forged = address.bytes.clone();
    forged[0] = forged[0].wrapping_add(1);
    let claimed = Address { bytes: forged };
    let result = verify_address(&claimed, &escrow_seeder(), &program);
    assert!(matches!(result, Err(FrameworkError::AddressMismatch)));
}

#[test]
fn signing_seed_set_appends_bump() {
    let seeds = signing_seed_set(&escrow_seeder(), 254);
    assert_eq!(seeds.len(), 2);
    assert_eq!(seeds[0], b"escrow".to_vec());
    assert_eq!(seeds[1], vec![254u8]);
}

#[test]
fn derived_address_differs_between_programs() {
    let (a1, _) = find_address(&escrow_seeder(), &address_of(1)).unwrap();
    let (a2, _) = find_address(&escrow_seeder(), &address_of(2)).unwrap();
    assert_ne!(a1.bytes, a2.bytes);
}
