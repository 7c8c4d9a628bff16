//! A handle that accepts both forms of an initializable account: one still
//! unowned (to be created) and one this program already owns (which must hold
//! a zeroed buffer). The variant is chosen at construction from the owner tag.

use vstd::prelude::*;
use crate::error::FrameworkError;
use crate::lifecycle::{create_or_adopt, create_or_adopt_post};
use crate::rent::RentTable;
use crate::resource::{unowned_tag, Address, Resource, ResourceList};

verus! {

/// Either a fresh account to create or a pre-zeroed account to adopt.
pub enum InitOrZeroedAccount {
    /// The resource is not owned yet and will be created.
    Init(Resource),
    /// The resource is already owned by this program and must be zeroed.
    Zeroed(Resource),
}

impl InitOrZeroedAccount {
    /// The wrapped resource, whichever variant holds it.
    pub open spec fn resource_spec(&self) -> Resource {
        match self {
            InitOrZeroedAccount::Init(r) => *r,
            InitOrZeroedAccount::Zeroed(r) => *r,
        }
    }

    /// A well-formed handle wraps a well-formed resource.
    pub open spec fn wf(&self) -> bool {
        self.resource_spec().wf()
    }

    /// Consumes the next resource of the list and picks the variant from its
    /// owner tag: already program-owned means adoption, anything else means
    /// creation.
    pub fn from_accounts(program_id: &Address, list: &mut ResourceList) -> (r: Result<
        InitOrZeroedAccount,
        FrameworkError,
    >)
        requires
            program_id.wf(),
            old(list).wf(),
        ensures
            final(list).wf(),
            old(list)@.len() == 0 ==> {
                &&& r matches Err(e)
                &&& e is InsufficientResources
                &&& final(list)@ == old(list)@
            },
            old(list)@.len() > 0 ==> {
                &&& r matches Ok(a)
                &&& a.wf()
                &&& a.resource_spec() == old(list)@[0]
                &&& (a is Zeroed <==> old(list)@[0]@.owner == program_id@)
                &&& final(list)@ == old(list)@.drop_first()
            },
    {
        let resource = list.take_next()?;
        if crate::resource::address_eq(&resource.owner, program_id) {
            Ok(InitOrZeroedAccount::Zeroed(resource))
        } else {
            Ok(InitOrZeroedAccount::Init(resource))
        }
    }

    /// Validates the handle: creates or adopts the resource and writes the
    /// discriminant and initial payload.
    pub fn validate(
        &mut self,
        program_id: &Address,
        rent: &RentTable,
        discriminant: u64,
        width: usize,
        payload: &Vec<u8>,
        funder: &mut Resource,
    ) -> (r: Result<(), FrameworkError>)
        requires
            old(self).wf(),
            old(funder).wf(),
            program_id.wf(),
            program_id@ != unowned_tag(),
            1 <= width <= 8,
            width + payload@.len() <= usize::MAX,
            old(self).resource_spec()@.balance + old(funder)@.balance <= u64::MAX,
        ensures
            final(self).wf(),
            final(funder).wf(),
            (*final(self)) is Init <==> (*old(self)) is Init,
            create_or_adopt_post(
                r,
                old(self).resource_spec()@,
                old(funder)@,
                final(self).resource_spec()@,
                final(funder)@,
                program_id@,
                *rent,
                discriminant,
                width as nat,
                payload@,
            ),
    {
        match self {
            InitOrZeroedAccount::Init(resource) => create_or_adopt(
                resource,
                funder,
                program_id,
                rent,
                discriminant,
                width,
                payload,
            ),
            InitOrZeroedAccount::Zeroed(resource) => create_or_adopt(
                resource,
                funder,
                program_id,
                rent,
                discriminant,
                width,
                payload,
            ),
        }
    }

    /// The wrapped resource.
    pub fn info(&self) -> (r: &Resource)
        ensures
            *r == self.resource_spec(),
    {
        match self {
            InitOrZeroedAccount::Init(resource) => resource,
            InitOrZeroedAccount::Zeroed(resource) => resource,
        }
    }

    /// Mutable access to the wrapped resource.
    pub fn resource_mut(&mut self) -> (r: &mut Resource)
        ensures
            *r == old(self).resource_spec(),
            final(self).resource_spec() == *final(r),
            (*final(self)) is Init <==> (*old(self)) is Init,
    {
        match self {
            InitOrZeroedAccount::Init(resource) => resource,
            InitOrZeroedAccount::Zeroed(resource) => resource,
        }
    }

    /// Whether the wrapped resource signed the invocation.
    pub fn is_signer(&self) -> (r: bool)
        ensures
            r == self.resource_spec()@.is_signer,
    {
        self.info().is_signer
    }

    /// Whether the host let this invocation write the resource.
    pub fn is_writable(&self) -> (r: bool)
        ensures
            r == self.resource_spec()@.is_writable,
    {
        self.info().is_writable
    }

    /// Whether the candidate owns the wrapped resource.
    pub fn is_owner(&self, owner: &Address) -> (r: bool)
        ensures
            r == (self.resource_spec()@.owner == owner@),
    {
        crate::resource::address_eq(&self.info().owner, owner)
    }

    /// Releases the resource for the write-back pass.
    pub fn write_back(self) -> (r: Resource)
        ensures
            r == self.resource_spec(),
    {
        match self {
            InitOrZeroedAccount::Init(resource) => resource,
            InitOrZeroedAccount::Zeroed(resource) => resource,
        }
    }

    /// Appends the address this handle consumed to a key collection.
    pub fn add_keys(&self, keys: &mut Vec<Address>)
        ensures
            final(keys)@.len() == old(keys)@.len() + 1,
            final(keys)@.last()@ == self.resource_spec().address@,
            forall|i: int| 0 <= i < old(keys)@.len() ==> final(keys)@[i] == old(keys)@[i],
    {
        keys.push(self.info().address.duplicate());
    }

    /// How many resources construction consumes: always exactly one.
    pub fn accounts_usage_hint() -> (r: (usize, Option<usize>))
        ensures
            r.0 == 1,
            r.1 == Some(1usize),
    {
        (1, Some(1))
    }
}

} // verus!
