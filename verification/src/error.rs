//! The failure taxonomy of the framework.
//!
//! Every error is terminal for the current invocation: combinators propagate
//! the first failure unchanged and nothing is retried inside this crate.

use vstd::prelude::*;
use crate::resource::Address;

verus! {

/// Why a validation or lifecycle step failed.
#[derive(Debug)]
pub enum FrameworkError {
    /// Fewer resources were supplied than construction requires.
    InsufficientResources,
    /// The buffer's leading type tag disagrees with the expected type.
    MismatchedDiscriminant { account: Address, received: u64, expected: u64 },
    /// Adoption of a program-owned resource found a non-zero payload region.
    NonZeroedData { account: Address },
    /// The owner tag is neither the unowned tag nor this program.
    AccountOwnerNotEqual { account: Address, owner: Address },
    /// The balance is below the rent-derived minimum for the buffer size.
    NotEnoughLamports { account: Address, lamports: u64, needed_lamports: u64 },
    /// A claimed deterministic address does not re-derive from its seeds.
    AddressMismatch,
    /// No bump value yields an address outside the valid-key subgroup.
    NoViableBumpFound,
    /// A business-level invariant was violated.
    CustomValidation { message: &'static str },
}

} // verus!
