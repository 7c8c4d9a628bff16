//! An account handle that reads its typed data in place: the buffer itself
//! stays the store, and validation only proves the discriminant is right.

use vstd::prelude::*;
use crate::error::FrameworkError;
use crate::lifecycle::{create_or_adopt, create_or_adopt_post, discriminant_ok, validate_discriminant};
use crate::rent::RentTable;
use crate::resource::{unowned_tag, Address, Resource};
use crate::codec::le_value;

verus! {

/// A typed in-place view over one resource.
pub struct InPlaceAccount {
    /// The wrapped raw resource.
    pub resource: Resource,
}

/// The creation argument of an [`InPlaceAccount`]: what to write and which
/// rent table prices the new buffer.
pub struct Create {
    /// The rent table that prices the created buffer.
    pub rent: RentTable,
    /// The discriminant of the type being created.
    pub discriminant: u64,
    /// The byte width of the discriminant field.
    pub width: usize,
    /// The encoded initial payload.
    pub payload: Vec<u8>,
}

impl InPlaceAccount {
    /// A well-formed handle wraps a well-formed resource.
    pub open spec fn wf(&self) -> bool {
        self.resource.wf()
    }

    /// Wraps a raw resource without validating it.
    pub fn new(resource: Resource) -> (r: InPlaceAccount)
        ensures
            r.resource == resource,
    {
        InPlaceAccount { resource }
    }

    /// Validates the typed read path: this program owns the resource and the
    /// buffer leads with the expected discriminant.
    pub fn validate(&self, program_id: &Address, expected: u64, width: usize) -> (r: Result<
        (),
        FrameworkError,
    >)
        requires
            self.wf(),
            program_id.wf(),
            1 <= width <= 8,
        ensures
            r is Ok <==> self.resource@.owner == program_id@ && discriminant_ok(
                self.resource@.buffer,
                expected,
                width as nat,
            ),
            r matches Err(e) ==> {
                &&& (e is AccountOwnerNotEqual <==> self.resource@.owner != program_id@)
                &&& (e is CustomValidation <==> self.resource@.owner == program_id@
                    && self.resource@.buffer.len() < width)
                &&& (e is MismatchedDiscriminant <==> self.resource@.owner == program_id@
                    && self.resource@.buffer.len() >= width && le_value(
                    self.resource@.buffer.take(width as int),
                ) != expected)
            },
    {
        validate_discriminant(&self.resource, program_id, expected, width)
    }

    /// Validates the init path: creates or adopts the resource, then writes
    /// the discriminant and the initial payload.
    pub fn validate_create(
        &mut self,
        program_id: &Address,
        arg: &Create,
        funder: &mut Resource,
    ) -> (r: Result<(), FrameworkError>)
        requires
            old(self).wf(),
            old(funder).wf(),
            program_id.wf(),
            program_id@ != unowned_tag(),
            1 <= arg.width <= 8,
            arg.width + arg.payload@.len() <= usize::MAX,
            old(self).resource@.balance + old(funder)@.balance <= u64::MAX,
        ensures
            final(self).wf(),
            final(funder).wf(),
            create_or_adopt_post(
                r,
                old(self).resource@,
                old(funder)@,
                final(self).resource@,
                final(funder)@,
                program_id@,
                arg.rent,
                arg.discriminant,
                arg.width as nat,
                arg.payload@,
            ),
    {
        create_or_adopt(
            &mut self.resource,
            funder,
            program_id,
            &arg.rent,
            arg.discriminant,
            arg.width,
            &arg.payload,
        )
    }

    /// Releases the resource for the write-back pass.
    pub fn write_back(self) -> (r: Resource)
        ensures
            r == self.resource,
    {
        self.resource
    }
}

} // verus!
