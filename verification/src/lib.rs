//! A resource validation and lifecycle framework for a ledger-style host.
//!
//! Each invocation receives a list of raw resources (address, owner tag,
//! signer and writable flags, balance, byte buffer). This crate turns that
//! untyped list into typed, invariant-checked handles: discriminant-tagged
//! decoding, rent-exemption checks, create-or-adopt initialization, closing
//! sweeps, and deterministic (seed-derived) address verification.

pub mod codec;
pub mod error;
pub mod escrow;
pub mod in_place_account;
pub mod init_or_zeroed_account;
pub mod lifecycle;
pub mod pda;
pub mod rent;
pub mod rent_exempt;
pub mod resource;

pub use error::FrameworkError;
pub use escrow::{
    EscrowAccount, EscrowAccounts, EscrowInstructions, Exchange, ExchangeAccounts, ExchangeData,
    HostCall, InitEscrow, InitEscrowAccounts, InitEscrowData, TokenAccount,
};
pub use in_place_account::{Create, InPlaceAccount};
pub use init_or_zeroed_account::InitOrZeroedAccount;
pub use pda::Seeder;
pub use rent::RentTable;
pub use rent_exempt::RentExempt;
pub use resource::{Address, Resource, ResourceList, ResourceView, ADDRESS_LEN};
