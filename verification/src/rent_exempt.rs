//! A wrapper that proves the wrapped account holds at least the rent-derived
//! minimum balance for its buffer size.

use vstd::prelude::*;
use crate::codec::lemma_le_bytes_len;
use crate::error::FrameworkError;
use crate::init_or_zeroed_account::InitOrZeroedAccount;
use crate::lifecycle::{create_or_adopt_post, written_prefix, zeroed_prefix};
use crate::rent::{minimum_balance_spec, RentTable};
use crate::resource::{unowned_tag, Address, Resource, ResourceList, ResourceView};

verus! {

/// The rent check alone: a resource passes exactly when its balance covers the
/// minimum for its buffer length.
pub fn validate_rent_exempt(resource: &Resource, rent: &RentTable) -> (r: Result<
    (),
    FrameworkError,
>)
    ensures
        r is Ok <==> resource@.balance >= minimum_balance_spec(*rent, resource@.buffer.len()),
        r matches Err(e) ==> {
            &&& e matches FrameworkError::NotEnoughLamports { account, lamports, needed_lamports }
            &&& account@ == resource@.address
            &&& lamports == resource@.balance
            &&& needed_lamports as nat == minimum_balance_spec(*rent, resource@.buffer.len())
            &&& lamports < needed_lamports
        },
{
    let needed_lamports = rent.minimum_balance(resource.buffer.len());
    if resource.balance < needed_lamports {
        Err(FrameworkError::NotEnoughLamports {
            account: resource.address.duplicate(),
            lamports: resource.balance,
            needed_lamports,
        })
    } else {
        Ok(())
    }
}

/// When a create-or-adopt under this wrapper succeeds as a whole: the inner
/// initialization goes through and the resulting balance is rent exempt.
pub open spec fn rent_exempt_success(
    t0: ResourceView,
    f0: ResourceView,
    program: Seq<u8>,
    rent: RentTable,
    width: nat,
    payload: Seq<u8>,
) -> bool {
    let needed = minimum_balance_spec(rent, width + payload.len());
    ||| (t0.owner == unowned_tag() && f0.balance >= needed)
    ||| (t0.owner == program && zeroed_prefix(t0.buffer, width) && t0.buffer.len() >= width
        + payload.len() && t0.balance >= minimum_balance_spec(rent, t0.buffer.len()))
}

/// Everything the wrapper's validation promises: either the inner
/// initialization failed (and reported why), or it succeeded and the rent
/// check ran on the initialized resource.
pub open spec fn rent_exempt_post(
    r: Result<(), FrameworkError>,
    t0: ResourceView,
    f0: ResourceView,
    t1: ResourceView,
    f1: ResourceView,
    program: Seq<u8>,
    rent: RentTable,
    discriminant: u64,
    width: nat,
    payload: Seq<u8>,
) -> bool {
    &&& (r is Ok <==> rent_exempt_success(t0, f0, program, rent, width, payload))
    &&& (r is Ok ==> create_or_adopt_post(
        Ok(()),
        t0,
        f0,
        t1,
        f1,
        program,
        rent,
        discriminant,
        width,
        payload,
    ) && t1.balance >= minimum_balance_spec(rent, t1.buffer.len()))
    &&& (r matches Err(e) ==> {
        ||| create_or_adopt_post(r, t0, f0, t1, f1, program, rent, discriminant, width, payload)
        ||| {
            &&& create_or_adopt_post(
                Ok(()),
                t0,
                f0,
                t1,
                f1,
                program,
                rent,
                discriminant,
                width,
                payload,
            )
            &&& e matches FrameworkError::NotEnoughLamports { account, lamports, needed_lamports }
            &&& account@ == t1.address
            &&& lamports == t1.balance
            &&& needed_lamports as nat == minimum_balance_spec(rent, t1.buffer.len())
            &&& t1.balance < minimum_balance_spec(rent, t1.buffer.len())
        }
    })
}

/// An initializable account that must come out of initialization rent exempt.
pub struct RentExempt(pub InitOrZeroedAccount);

impl RentExempt {
    /// A well-formed wrapper wraps a well-formed handle.
    pub open spec fn wf(&self) -> bool {
        self.0.wf()
    }

    /// The wrapped resource.
    pub open spec fn resource_spec(&self) -> Resource {
        self.0.resource_spec()
    }

    /// Consumes the next resource of the list, exactly as the wrapped handle
    /// does: the rent check adds no resource demand of its own.
    pub fn from_accounts(program_id: &Address, list: &mut ResourceList) -> (r: Result<
        RentExempt,
        FrameworkError,
    >)
        requires
            program_id.wf(),
            old(list).wf(),
        ensures
            final(list).wf(),
            old(list)@.len() == 0 ==> {
                &&& r matches Err(e)
                &&& e is InsufficientResources
                &&& final(list)@ == old(list)@
            },
            old(list)@.len() > 0 ==> {
                &&& r matches Ok(a)
                &&& a.wf()
                &&& a.resource_spec() == old(list)@[0]
                &&& (a.0 is Zeroed <==> old(list)@[0]@.owner == program_id@)
                &&& final(list)@ == old(list)@.drop_first()
            },
    {
        let inner = InitOrZeroedAccount::from_accounts(program_id, list)?;
        Ok(RentExempt(inner))
    }

    /// Initializes the wrapped account, then demands the result be rent
    /// exempt under the same rent table.
    pub fn validate(
        &mut self,
        program_id: &Address,
        rent: &RentTable,
        discriminant: u64,
        width: usize,
        payload: &Vec<u8>,
        funder: &mut Resource,
    ) -> (r: Result<(), FrameworkError>)
        requires
            old(self).wf(),
            old(funder).wf(),
            program_id.wf(),
            program_id@ != unowned_tag(),
            1 <= width <= 8,
            width + payload@.len() <= usize::MAX,
            old(self).resource_spec()@.balance + old(funder)@.balance <= u64::MAX,
        ensures
            final(self).wf(),
            final(funder).wf(),
            rent_exempt_post(
                r,
                old(self).resource_spec()@,
                old(funder)@,
                final(self).resource_spec()@,
                final(funder)@,
                program_id@,
                *rent,
                discriminant,
                width as nat,
                payload@,
            ),
    {
        let inner_result = self.0.validate(program_id, rent, discriminant, width, payload, funder);
        match inner_result {
            Err(e) => Err(e),
            Ok(()) => {
                proof {
                    lemma_le_bytes_len(discriminant as nat, width as nat);
                    assert(written_prefix(discriminant, width as nat, payload@).len() == width
                        + payload@.len());
                }
                let rent_result = validate_rent_exempt(self.0.info(), rent);
                rent_result
            },
        }
    }

    /// The wrapped resource.
    pub fn info(&self) -> (r: &Resource)
        ensures
            *r == self.resource_spec(),
    {
        self.0.info()
    }

    /// Whether the wrapped resource signed the invocation.
    pub fn is_signer(&self) -> (r: bool)
        ensures
            r == self.resource_spec()@.is_signer,
    {
        self.0.is_signer()
    }

    /// Whether the host let this invocation write the resource.
    pub fn is_writable(&self) -> (r: bool)
        ensures
            r == self.resource_spec()@.is_writable,
    {
        self.0.is_writable()
    }

    /// Whether the candidate owns the wrapped resource.
    pub fn is_owner(&self, owner: &Address) -> (r: bool)
        ensures
            r == (self.resource_spec()@.owner == owner@),
    {
        self.0.is_owner(owner)
    }

    /// Appends the address this wrapper consumed to a key collection.
    pub fn add_keys(&self, keys: &mut Vec<Address>)
        ensures
            final(keys)@.len() == old(keys)@.len() + 1,
            final(keys)@.last()@ == self.resource_spec().address@,
            forall|i: int| 0 <= i < old(keys)@.len() ==> final(keys)@[i] == old(keys)@[i],
    {
        self.0.add_keys(keys)
    }

    /// How many resources construction consumes: exactly what the wrapped
    /// handle consumes.
    pub fn accounts_usage_hint() -> (r: (usize, Option<usize>))
        ensures
            r.0 == 1,
            r.1 == Some(1usize),
    {
        InitOrZeroedAccount::accounts_usage_hint()
    }

    /// Releases the resource for the write-back pass.
    pub fn write_back(self) -> (r: Resource)
        ensures
            r == self.resource_spec(),
    {
        self.0.write_back()
    }
}

} // verus!
