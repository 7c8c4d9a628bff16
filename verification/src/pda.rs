//! Deterministic (program-derived) addresses: seed-based derivation, claimed
//! address verification, and packaging of signing seed sets for delegated
//! host calls.

use vstd::prelude::*;
use crate::error::FrameworkError;
use crate::resource::{address_eq, copy_bytes, Address};

verus! {

/// Longest single seed the host accepts.
pub const MAX_SEED_LEN: usize = 32;

/// Most seeds (bump included) the host accepts in one derivation.
pub const MAX_SEEDS: usize = 16;

/// What the host's hash-based derivation yields for one seed list and program
/// identity: `Some(address)` when the digest lands outside the valid-key
/// subgroup (so no private key can exist for it), `None` when it does not.
pub uninterp spec fn derived_address(seeds: Seq<Seq<u8>>, program: Seq<u8>) -> Option<Seq<u8>>;

/// The byte sequences of a seed list.
pub open spec fn seeds_view(s: Seq<Vec<u8>>) -> Seq<Seq<u8>> {
    s.map_values(|v: Vec<u8>| v@)
}

/// Relies on `solana_program::pubkey::Pubkey::create_program_address`: its
/// result is a pure function of the seed bytes and the program identity (a
/// sha256 digest), returned exactly when the digest is not a valid key point.
/// With at most [`MAX_SEEDS`] seeds of at most [`MAX_SEED_LEN`] bytes each, no
/// other failure is possible.
#[verifier::external_body]
fn create_address(seeds: &Vec<Vec<u8>>, program: &Address) -> (r: Option<Address>)
    requires
        program.wf(),
        seeds@.len() <= MAX_SEEDS,
        forall|i: int| 0 <= i < seeds@.len() ==> (#[trigger] seeds@[i])@.len() <= MAX_SEED_LEN,
    ensures
        r is Some <==> derived_address(seeds_view(seeds@), program@) is Some,
        r matches Some(a) ==> a.wf() && derived_address(seeds_view(seeds@), program@) == Some(a@),
{
    let mut refs: Vec<&[u8]> = Vec::new();
    for s in seeds.iter() {
        refs.push(s.as_slice());
    }
    let arr: [u8; 32] = program.bytes.as_slice().try_into().unwrap();
    let pid = solana_program::pubkey::Pubkey::from(arr);
    match solana_program::pubkey::Pubkey::create_program_address(&refs, &pid) {
        Ok(a) => Some(Address { bytes: a.to_bytes().to_vec() }),
        Err(_) => None,
    }
}

/// An ordered list of seed fragments: one ingredient set of deterministic
/// address derivation.
pub struct Seeder {
    /// The seed fragments, in derivation order.
    pub seeds: Vec<Vec<u8>>,
}

impl View for Seeder {
    type V = Seq<Seq<u8>>;

    open spec fn view(&self) -> Seq<Seq<u8>> {
        seeds_view(self.seeds@)
    }
}

impl Seeder {
    /// A well-formed seeder leaves room for the bump seed.
    pub open spec fn wf(&self) -> bool {
        &&& self@.len() < MAX_SEEDS
        &&& forall|i: int| 0 <= i < self@.len() ==> (#[trigger] self@[i]).len() <= MAX_SEED_LEN
    }
}

/// The derivation search below (and including) `bump`: the first descending
/// bump value whose seed list yields an address.
pub open spec fn derive_at(seeds: Seq<Seq<u8>>, program: Seq<u8>, bump: int) -> Option<(Seq<u8>, u8)>
    decreases bump + 1,
{
    if bump < 0 {
        None
    } else {
        match derived_address(seeds.push(seq![bump as u8]), program) {
            Some(a) => Some((a, bump as u8)),
            None => derive_at(seeds, program, bump - 1),
        }
    }
}

/// What derivation returns for a seed list and program identity: the search
/// started at the largest representable bump.
pub open spec fn derive_result(seeds: Seq<Seq<u8>>, program: Seq<u8>) -> Option<(Seq<u8>, u8)> {
    derive_at(seeds, program, 255)
}

/// The seed list with the bump appended as a one-byte seed.
pub open spec fn seeds_with_bump_spec(seeds: Seq<Seq<u8>>, bump: u8) -> Seq<Seq<u8>> {
    seeds.push(seq![bump])
}

/// Packages the seeds plus a discovered bump into the exact seed list a
/// delegated host call signs with.
pub fn signing_seed_set(seeder: &Seeder, bump: u8) -> (r: Vec<Vec<u8>>)
    ensures
        seeds_view(r@) == seeds_with_bump_spec(seeder@, bump),
        r@.len() == seeder@.len() + 1,
{
    let mut out: Vec<Vec<u8>> = Vec::new();
    let mut i: usize = 0;
    let n = seeder.seeds.len();
    while i < n
        invariant
            i <= n,
            n == seeder.seeds@.len(),
            out@.len() == i,
            forall|j: int| 0 <= j < i ==> (#[trigger] out@[j])@ == seeder.seeds@[j]@,
        decreases n - i,
    {
        let copied = copy_bytes(&seeder.seeds[i]);
        out.push(copied);
        i += 1;
    }
    let mut bump_seed: Vec<u8> = Vec::new();
    bump_seed.push(bump);
    out.push(bump_seed);
    proof {
        assert(bump_seed@ =~= seq![bump]);
        assert forall|j: int| 0 <= j < out@.len() implies seeds_view(out@)[j]
            == seeds_with_bump_spec(seeder@, bump)[j] by {
            assert(seeds_view(out@)[j] == out@[j]@);
            if j < out@.len() - 1 {
                assert(out@[j]@ == seeder.seeds@[j]@);
                assert(seeds_with_bump_spec(seeder@, bump)[j] == seeder@[j]);
                assert(seeder@[j] == seeder.seeds@[j]@);
            } else {
                assert(out@[j]@ == seq![bump]);
            }
        }
        assert(seeds_view(out@) =~= seeds_with_bump_spec(seeder@, bump));
    }
    out
}

/// Derives the deterministic address of a seeder under a program identity,
/// searching bumps from 255 downward for the first that lands outside the
/// valid-key subgroup.
pub fn find_address(seeder: &Seeder, program: &Address) -> (r: Result<(Address, u8), FrameworkError>)
    requires
        seeder.wf(),
        program.wf(),
    ensures
        r matches Ok(ab) ==> ab.0.wf() && derive_result(seeder@, program@) == Some((ab.0@, ab.1)),
        r matches Err(e) ==> e is NoViableBumpFound && derive_result(seeder@, program@) is None,
{
    let mut bump: u8 = 255;
    loop
        invariant
            seeder.wf(),
            program.wf(),
            derive_result(seeder@, program@) == derive_at(seeder@, program@, bump as int),
        decreases bump,
    {
        let seeds = signing_seed_set(seeder, bump);
        proof {
            assert forall|i: int| 0 <= i < seeds@.len() implies (#[trigger] seeds@[i])@.len()
                <= MAX_SEED_LEN by {
                assert(seeds@[i]@ == seeds_view(seeds@)[i]);
                if i < seeder@.len() {
                    assert(seeds_view(seeds@)[i] == seeder@[i]);
                } else {
                    assert(seeds_view(seeds@)[i] == seq![bump]);
                }
            }
        }
        match create_address(&seeds, program) {
            Some(address) => {
                proof {
                    assert(derive_at(seeder@, program@, bump as int) == Some((address@, bump)));
                }
                return Ok((address, bump));
            }
            None => {
                proof {
                    assert(derived_address(seeder@.push(seq![bump]), program@) is None);
                    assert(derive_at(seeder@, program@, bump as int) == derive_at(
                        seeder@,
                        program@,
                        bump as int - 1,
                    ));
                }
                if bump == 0 {
                    return Err(FrameworkError::NoViableBumpFound);
                }
                bump = bump - 1;
            }
        }
    }
}

/// Re-derives the address of a seeder and compares it with a claimed one; the
/// claim passes exactly when it equals the derived address.
pub open spec fn verify_post(
    r: Result<u8, FrameworkError>,
    claimed: Seq<u8>,
    seeds: Seq<Seq<u8>>,
    program: Seq<u8>,
) -> bool {
    match derive_result(seeds, program) {
        Some(ab) => {
            &&& claimed == ab.0 ==> r == Ok::<u8, FrameworkError>(ab.1)
            &&& claimed != ab.0 ==> (r matches Err(e) && e is AddressMismatch)
        }
        None => r matches Err(e) && e is NoViableBumpFound,
    }
}

/// Proves a resource's claimed address was not forged: it must re-derive from
/// the seeder under this program's identity.
pub fn verify_address(claimed: &Address, seeder: &Seeder, program: &Address) -> (r: Result<
    u8,
    FrameworkError,
>)
    requires
        seeder.wf(),
        program.wf(),
    ensures
        verify_post(r, claimed@, seeder@, program@),
{
    match find_address(seeder, program) {
        Ok((address, bump)) => {
            if address_eq(&address, claimed) {
                Ok(bump)
            } else {
                Err(FrameworkError::AddressMismatch)
            }
        }
        Err(e) => Err(e),
    }
}

/// Law: derivation is deterministic. Any two results that derivation may
/// return for the same seeds and program identity are the same pair.
pub proof fn lemma_derive_deterministic(
    r1: Option<(Seq<u8>, u8)>,
    r2: Option<(Seq<u8>, u8)>,
    seeds: Seq<Seq<u8>>,
    program: Seq<u8>,
)
    requires
        r1 == derive_result(seeds, program),
        r2 == derive_result(seeds, program),
    ensures
        r1 == r2,
{
}

/// Law: the derived pair is the address of the seeds extended with the
/// returned bump, and every larger bump yields no address; when derivation
/// fails, no bump at all yields one.
pub proof fn lemma_derive_characterization(seeds: Seq<Seq<u8>>, program: Seq<u8>)
    ensures
        match derive_result(seeds, program) {
            Some(ab) => {
                &&& derived_address(seeds_with_bump_spec(seeds, ab.1), program) == Some(ab.0)
                &&& forall|b: int|
                    ab.1 < b <= 255 ==> #[trigger] derived_address(
                        seeds_with_bump_spec(seeds, b as u8),
                        program,
                    ) is None
            },
            None => forall|b: int|
                0 <= b <= 255 ==> #[trigger] derived_address(
                    seeds_with_bump_spec(seeds, b as u8),
                    program,
                ) is None,
        },
{
    lemma_derive_at_characterization(seeds, program, 255);
}

proof fn lemma_derive_at_characterization(seeds: Seq<Seq<u8>>, program: Seq<u8>, bump: int)
    requires
        -1 <= bump <= 255,
    ensures
        match derive_at(seeds, program, bump) {
            Some(ab) => {
                &&& ab.1 <= bump
                &&& derived_address(seeds_with_bump_spec(seeds, ab.1), program) == Some(ab.0)
                &&& forall|b: int|
                    ab.1 < b <= bump ==> #[trigger] derived_address(
                        seeds_with_bump_spec(seeds, b as u8),
                        program,
                    ) is None
            },
            None => forall|b: int|
                0 <= b <= bump ==> #[trigger] derived_address(
                    seeds_with_bump_spec(seeds, b as u8),
                    program,
                ) is None,
        },
    decreases bump + 1,
{
    if bump >= 0 {
        lemma_derive_at_characterization(seeds, program, bump - 1);
    }
}

/// Law: verification is sound. When derivation yields a pair, verifying the
/// derived address returns the same bump, and verifying any other address
/// fails with an address mismatch.
pub proof fn lemma_verify_soundness(
    r: Result<u8, FrameworkError>,
    claimed: Seq<u8>,
    seeds: Seq<Seq<u8>>,
    program: Seq<u8>,
    ab: (Seq<u8>, u8),
)
    requires
        derive_result(seeds, program) == Some(ab),
        verify_post(r, claimed, seeds, program),
    ensures
        claimed == ab.0 ==> r == Ok::<u8, FrameworkError>(ab.1),
        claimed != ab.0 ==> (r matches Err(e) && e is AddressMismatch),
{
}

} // verus!
