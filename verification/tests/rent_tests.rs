//! The rent table and the rent-exemption boundary.

use cruiser::error::FrameworkError;
use cruiser::rent::RentTable;
use cruiser::rent_exempt::validate_rent_exempt;
use cruiser::{Address, Resource};

fn table() -> RentTable {
    RentTable { lamports_per_byte_year: 3480, exemption_years: 2 }
}

fn resource_with(balance: u64, buffer_len: usize) -> Resource {
    Resource {
        address: Address { bytes: vec![5; 32] },
        owner: Address { bytes: vec![6; 32] },
        is_signer: false,
        is_writable: true,
        balance,
        buffer: vec![0; buffer_len],
    }
}

#[test]
fn minimum_balance_is_exact() {
    // (128 overhead + 105 bytes) * 3480 per byte-year * 2 years.
    assert_eq!(table().minimum_balance(105), 233 * 3480 * 2);
    assert_eq!(table().minimum_balance(0), 128 * 3480 * 2);
}

#[test]
fn minimum_balance_saturates() {
    let greedy = RentTable { lamports_per_byte_year: u64::MAX, exemption_years: u64::MAX };
    assert_eq!(greedy.minimum_balance(1), u64::MAX);
}

#[test]
fn balance_at_the_minimum_passes() {
    let needed = table().minimum_balance(105);
    let resource = resource_with(needed, 105);
    assert!(validate_rent_exempt(&resource, &table()).is_ok());
}

#[test]
fn balance_one_below_the_minimum_fails() {
    let needed = table().minimum_balance(105);
    let resource = resource_with(needed - 1, 105);
    let result = validate_rent_exempt(&resource, &table());
    match result {
        Err(FrameworkError::NotEnoughLamports { account, lamports, needed_lamports }) => {
            assert_eq!(account.bytes, vec![5; 32]);
            assert_eq!(lamports, needed - 1);
            assert_eq!(needed_lamports, needed);
        }
        other => panic!("expected NotEnoughLamports, got {:?}", other),
    }
}
