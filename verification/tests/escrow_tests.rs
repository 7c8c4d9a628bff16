//! End-to-end escrow scenarios: create a record, reject a wrong settlement,
//! and settle and close.

use cruiser::error::FrameworkError;
use cruiser::escrow::{
    EscrowAccount, EscrowAccounts, Exchange, ExchangeData, HostCall, InitEscrow, InitEscrowData,
};
use cruiser::pda::{find_address, Seeder};
use cruiser::rent::RentTable;
use cruiser::{Address, Resource, ResourceList};

fn address_of(byte: u8) -> Address {
    Address { bytes: vec![byte; 32] }
}

fn system_tag() -> Address {
    Address { bytes: vec![0; 32] }
}

fn table() -> RentTable {
    RentTable { lamports_per_byte_year: 3480, exemption_years: 2 }
}

fn plain_resource(address: u8, owner: Address) -> Resource {
    Resource {
        address: address_of(address),
        owner,
        is_signer: false,
        is_writable: true,
        balance: 0,
        buffer: Vec::new(),
    }
}

/// A token resource whose buffer holds {holder address, amount}.
fn token_resource(address: u8, holder: &Address, amount: u64) -> Resource {
    let mut buffer = holder.bytes.clone();
    buffer.extend_from_slice(&amount.to_le_bytes());
    Resource {
        address: address_of(address),
        owner: address_of(40),
        is_signer: false,
        is_writable: true,
        balance: 0,
        buffer,
    }
}

/// Runs the whole init instruction and hands back the populated escrow
/// resource together with the initializer.
fn run_init(amount: u64) -> (Resource, Resource, Vec<HostCall>) {
    let program = address_of(1);
    let mut initializer = plain_resource(20, system_tag());
    initializer.is_signer = true;
    initializer.balance = 10_000_000;
    let temp = token_resource(21, &initializer.address, 900);
    let receive = token_resource(22, &initializer.address, 0);
    let escrow = plain_resource(23, system_tag());
    let token_program = plain_resource(40, system_tag());
    let system_program = plain_resource(0, system_tag());
    let mut list =
        ResourceList::new(vec![initializer, temp, receive, escrow, token_program, system_program]);
    let mut accounts = InitEscrow::from_accounts(&program, &mut list).unwrap();
    InitEscrow::validate(&mut accounts, &program, &table()).unwrap();
    let data = InitEscrowData { amount };
    let calls = InitEscrow::process(&program, &data, &mut accounts).unwrap();
    (accounts.escrow_account.0.write_back(), accounts.initializer, calls)
}

#[test]
fn the_escrow_family_fits_one_discriminant_byte() {
    assert_eq!(EscrowAccounts::member_count(), 1);
    assert_eq!(EscrowAccounts::discriminant_width(), 1);
    assert_eq!(EscrowAccount::on_chain_size(), 104);
}

#[test]
fn scenario_init_creates_a_typed_funded_record() {
    let (escrow, initializer, calls) = run_init(500);
    let needed = table().minimum_balance(105);

    // The record account is typed, owned, and rent exempt.
    assert_eq!(escrow.owner.bytes, vec![1; 32]);
    assert_eq!(escrow.buffer.len(), 105);
    assert_eq!(escrow.buffer[0], 1, "the discriminant must be present");
    assert!(escrow.balance >= needed);
    assert_eq!(initializer.balance, 10_000_000 - needed);

    // The payload fields equal the supplied values.
    let record = EscrowAccount::decode(&escrow.buffer, 1).unwrap();
    assert_eq!(record.initializer.bytes, vec![20; 32]);
    assert_eq!(record.temp_token_account.bytes, vec![21; 32]);
    assert_eq!(record.initializer_token_to_receive.bytes, vec![22; 32]);
    assert_eq!(record.expected_amount, 500);

    // The host is asked to hand the escrowed tokens to the derived authority.
    let seeder = Seeder { seeds: vec![b"escrow".to_vec()] };
    let (pda, _) = find_address(&seeder, &address_of(1)).unwrap();
    assert_eq!(calls.len(), 1);
    match &calls[0] {
        HostCall::SetAuthority { account, new_authority, current_authority } => {
            assert_eq!(account.bytes, vec![21; 32]);
            assert_eq!(new_authority.bytes, pda.bytes);
            assert_eq!(current_authority.bytes, vec![20; 32]);
        }
        other => panic!("expected SetAuthority, got {:?}", other),
    }
}

/// Builds the nine exchange resources around an initialized escrow.
fn exchange_list(escrow: Resource, initializer: Resource, pda: &Address) -> ResourceList {
    let mut taker = plain_resource(30, system_tag());
    taker.is_signer = true;
    let taker_send = token_resource(31, &taker.address, 500);
    let taker_receive = token_resource(32, &taker.address, 0);
    let temp = token_resource(21, pda, 900);
    let initializer_token = token_resource(22, &initializer.address, 0);
    let token_program = plain_resource(40, system_tag());
    let pda_account = Resource {
        address: Address { bytes: pda.bytes.clone() },
        owner: system_tag(),
        is_signer: false,
        is_writable: false,
        balance: 0,
        buffer: Vec::new(),
    };
    ResourceList::new(vec![
        taker,
        taker_send,
        taker_receive,
        temp,
        initializer,
        initializer_token,
        escrow,
        token_program,
        pda_account,
    ])
}

#[test]
fn scenario_exchange_rejects_a_mismatched_amount() {
    let program = address_of(1);
    let (escrow, initializer, _) = run_init(500);
    let buffer_before = escrow.buffer.clone();
    let seeder = Seeder { seeds: vec![b"escrow".to_vec()] };
    let (pda, _) = find_address(&seeder, &program).unwrap();
    let mut list = exchange_list(escrow, initializer, &pda);
    let mut accounts = Exchange::from_accounts(&program, &mut list).unwrap();
    let bump = Exchange::validate(&accounts, &program).unwrap();
    let result = Exchange::process(&ExchangeData { amount: 499 }, &mut accounts, bump);
    assert!(matches!(result, Err(FrameworkError::CustomValidation { .. })));
    // No buffer mutation on failure.
    assert_eq!(accounts.escrow_account.buffer, buffer_before);
    assert_eq!(accounts.escrow_account.owner.bytes, vec![1; 32]);
}

#[test]
fn scenario_exchange_settles_and_closes_the_record() {
    let program = address_of(1);
    let (escrow, initializer, _) = run_init(500);
    let escrow_balance = escrow.balance;
    let initializer_balance = initializer.balance;
    let buffer_len = escrow.buffer.len();
    let seeder = Seeder { seeds: vec![b"escrow".to_vec()] };
    let (pda, expected_bump) = find_address(&seeder, &program).unwrap();
    let mut list = exchange_list(escrow, initializer, &pda);
    let mut accounts = Exchange::from_accounts(&program, &mut list).unwrap();
    let bump = Exchange::validate(&accounts, &program).unwrap();
    assert_eq!(bump, expected_bump);
    let calls = Exchange::process(&ExchangeData { amount: 500 }, &mut accounts, bump).unwrap();

    // The whole balance went to the designated recipient; the buffer is
    // zeroed and the owner reset to unowned.
    assert_eq!(accounts.escrow_account.balance, 0);
    assert_eq!(accounts.escrow_account.owner.bytes, vec![0; 32]);
    assert_eq!(accounts.escrow_account.buffer, vec![0; buffer_len]);
    assert_eq!(accounts.initializer.balance, initializer_balance + escrow_balance);

    // The three settlement calls carry the recorded parties and amounts.
    assert_eq!(calls.len(), 3);
    match &calls[0] {
        HostCall::Transfer { from, to, authority, amount } => {
            assert_eq!(from.bytes, vec![31; 32]);
            assert_eq!(to.bytes, vec![22; 32]);
            assert_eq!(authority.bytes, vec![30; 32]);
            assert_eq!(*amount, 500);
        }
        other => panic!("expected Transfer, got {:?}", other),
    }
    match &calls[1] {
        HostCall::SignedTransfer { seeds, from, to, authority, amount } => {
            assert_eq!(seeds.clone(), vec![b"escrow".to_vec(), vec![bump]]);
            assert_eq!(from.bytes, vec![21; 32]);
            assert_eq!(to.bytes, vec![32; 32]);
            assert_eq!(authority.bytes, pda.bytes);
            assert_eq!(*amount, 900);
        }
        other => panic!("expected SignedTransfer, got {:?}", other),
    }
    match &calls[2] {
        HostCall::SignedCloseAccount { seeds, account, recipient, authority } => {
            assert_eq!(seeds.clone(), vec![b"escrow".to_vec(), vec![bump]]);
            assert_eq!(account.bytes, vec![21; 32]);
            assert_eq!(recipient.bytes, vec![20; 32]);
            assert_eq!(authority.bytes, pda.bytes);
        }
        other => panic!("expected SignedCloseAccount, got {:?}", other),
    }
}

#[test]
fn exchange_validate_rejects_a_forged_authority() {
    let program = address_of(1);
    let (escrow, initializer, _) = run_init(500);
    let forged = address_of(77);
    let mut list = exchange_list(escrow, initializer, &forged);
    let accounts = Exchange::from_accounts(&program, &mut list).unwrap();
    let result = Exchange::validate(&accounts, &program);
    assert!(matches!(result, Err(FrameworkError::AddressMismatch)));
}
