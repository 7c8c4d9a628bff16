//! The raw host resource: a keyed, owned, mutable byte buffer with flags and a
//! balance, plus the ordered list that an invocation receives them in.

use vstd::prelude::*;
use crate::error::FrameworkError;

verus! {

/// Byte width of every address in the system.
pub const ADDRESS_LEN: usize = 32;

/// A 32-byte identifier for a resource or a program.
#[derive(Debug)]
pub struct Address {
    /// The raw bytes; well-formed addresses hold exactly [`ADDRESS_LEN`] of them.
    pub bytes: Vec<u8>,
}

impl View for Address {
    type V = Seq<u8>;

    open spec fn view(&self) -> Seq<u8> {
        self.bytes@
    }
}

impl Address {
    /// A well-formed address holds exactly 32 bytes.
    pub open spec fn wf(&self) -> bool {
        self@.len() == ADDRESS_LEN
    }

    /// Builds an address from its raw bytes.
    pub fn new(bytes: Vec<u8>) -> (r: Address)
        requires
            bytes@.len() == ADDRESS_LEN,
        ensures
            r.wf(),
            r@ == bytes@,
    {
        Address { bytes }
    }

    /// A fresh address holding the same bytes.
    pub fn duplicate(&self) -> (r: Address)
        ensures
            r@ == self@,
    {
        Address { bytes: copy_bytes(&self.bytes) }
    }
}

/// Byte-for-byte copy of a vector.
pub fn copy_bytes(src: &Vec<u8>) -> (r: Vec<u8>)
    ensures
        r@ == src@,
{
    let mut out: Vec<u8> = Vec::new();
    let mut i: usize = 0;
    while i < src.len()
        invariant
            i <= src@.len(),
            out@ == src@.take(i as int),
        decreases src@.len() - i,
    {
        out.push(src[i]);
        i += 1;
        proof {
            assert(out@ =~= src@.take(i as int));
        }
    }
    proof {
        assert(out@ =~= src@);
    }
    out
}

/// True exactly when the two addresses hold the same bytes.
pub fn address_eq(a: &Address, b: &Address) -> (r: bool)
    ensures
        r == (a@ == b@),
{
    if a.bytes.len() != b.bytes.len() {
        return false;
    }
    let mut i: usize = 0;
    while i < a.bytes.len()
        invariant
            i <= a@.len(),
            a@.len() == b@.len(),
            forall|j: int| 0 <= j < i ==> a@[j] == b@[j],
        decreases a@.len() - i,
    {
        if a.bytes[i] != b.bytes[i] {
            return false;
        }
        i += 1;
    }
    proof {
        assert(a@ =~= b@);
    }
    true
}

/// The owner tag of resources that no program owns yet: all zero bytes.
pub open spec fn unowned_tag() -> Seq<u8> {
    Seq::new(ADDRESS_LEN as nat, |i: int| 0u8)
}

/// The system/unowned owner tag as an address value.
pub fn system_owner() -> (r: Address)
    ensures
        r.wf(),
        r@ == unowned_tag(),
{
    let mut bytes: Vec<u8> = Vec::new();
    let mut i: usize = 0;
    while i < ADDRESS_LEN
        invariant
            i <= ADDRESS_LEN,
            bytes@.len() == i,
            forall|j: int| 0 <= j < i ==> bytes@[j] == 0u8,
        decreases ADDRESS_LEN - i,
    {
        bytes.push(0u8);
        i += 1;
    }
    proof {
        assert(bytes@ =~= unowned_tag());
    }
    Address { bytes }
}

/// The mathematical value of one raw resource.
#[verifier::ext_equal]
pub struct ResourceView {
    pub address: Seq<u8>,
    pub owner: Seq<u8>,
    pub is_signer: bool,
    pub is_writable: bool,
    pub balance: u64,
    pub buffer: Seq<u8>,
}

/// One raw resource as the host hands it over: address, owner tag, signer and
/// writable flags, balance, and a mutable byte buffer.
#[derive(Debug)]
pub struct Resource {
    pub address: Address,
    pub owner: Address,
    pub is_signer: bool,
    pub is_writable: bool,
    pub balance: u64,
    pub buffer: Vec<u8>,
}

impl View for Resource {
    type V = ResourceView;

    open spec fn view(&self) -> ResourceView {
        ResourceView {
            address: self.address@,
            owner: self.owner@,
            is_signer: self.is_signer,
            is_writable: self.is_writable,
            balance: self.balance,
            buffer: self.buffer@,
        }
    }
}

impl Resource {
    /// A well-formed resource carries well-formed identifiers.
    pub open spec fn wf(&self) -> bool {
        self.address.wf() && self.owner.wf()
    }
}

/// The identity and flags of a resource, which no framework operation changes.
pub open spec fn same_identity(a: ResourceView, b: ResourceView) -> bool {
    &&& a.address == b.address
    &&& a.is_signer == b.is_signer
    &&& a.is_writable == b.is_writable
}

/// The ordered resource list of one invocation, consumed front to back by the
/// construction phase.
pub struct ResourceList {
    pub items: Vec<Resource>,
}

impl View for ResourceList {
    type V = Seq<Resource>;

    open spec fn view(&self) -> Seq<Resource> {
        self.items@
    }
}

impl ResourceList {
    /// All resources still in the list are well-formed.
    pub open spec fn wf(&self) -> bool {
        forall|i: int| 0 <= i < self@.len() ==> (#[trigger] self@[i]).wf()
    }

    /// Wraps the host-supplied resources.
    pub fn new(items: Vec<Resource>) -> (r: ResourceList)
        ensures
            r@ == items@,
    {
        ResourceList { items }
    }

    /// Hands out the next resource, failing once the list is exhausted.
    pub fn take_next(&mut self) -> (r: Result<Resource, FrameworkError>)
        ensures
            old(self)@.len() == 0 ==> {
                &&& r matches Err(e)
                &&& e is InsufficientResources
                &&& final(self)@ == old(self)@
            },
            old(self)@.len() > 0 ==> {
                &&& r matches Ok(res)
                &&& res == old(self)@[0]
                &&& final(self)@ == old(self)@.drop_first()
            },
    {
        if self.items.len() == 0 {
            Err(FrameworkError::InsufficientResources)
        } else {
            let first = self.items.remove(0);
            proof {
                assert(self@ =~= old(self)@.drop_first());
            }
            Ok(first)
        }
    }
}

} // verus!
