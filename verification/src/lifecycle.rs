//! Lifecycle transitions of one resource: create-or-adopt initialization,
//! discriminant-checked typed access, and the closing sweep.

use vstd::prelude::*;
use crate::codec::{encode_discriminant, le_bytes, le_value};
use crate::error::FrameworkError;
use crate::rent::{minimum_balance_spec, RentTable};
use crate::resource::{
    address_eq, same_identity, system_owner, unowned_tag, Address, Resource, ResourceView,
};

verus! {

/// The bytes initialization writes at the front of a typed buffer: the
/// discriminant field, then the payload.
pub open spec fn written_prefix(discriminant: u64, width: nat, payload: Seq<u8>) -> Seq<u8> {
    le_bytes(discriminant as nat, width) + payload
}

/// The first `width` bytes hold nothing but zeroes (short buffers count as far
/// as they reach).
pub open spec fn zeroed_prefix(buffer: Seq<u8>, width: nat) -> bool {
    forall|i: int| 0 <= i < width && i < buffer.len() ==> buffer[i] == 0
}

/// The buffer starts with the expected discriminant field.
pub open spec fn discriminant_ok(buffer: Seq<u8>, expected: u64, width: nat) -> bool {
    &&& buffer.len() >= width
    &&& le_value(buffer.take(width as int)) == expected
}

/// Everything create-or-adopt promises, relating the target and funder before
/// (`t0`, `f0`) and after (`t1`, `f1`) the call.
pub open spec fn create_or_adopt_post(
    r: Result<(), FrameworkError>,
    t0: ResourceView,
    f0: ResourceView,
    t1: ResourceView,
    f1: ResourceView,
    program: Seq<u8>,
    rent: RentTable,
    discriminant: u64,
    width: nat,
    payload: Seq<u8>,
) -> bool {
    let needed = minimum_balance_spec(rent, width + payload.len());
    let written = written_prefix(discriminant, width, payload);
    &&& same_identity(t0, t1)
    &&& same_identity(f0, f1)
    &&& (r is Ok <==> {
        ||| (t0.owner == unowned_tag() && f0.balance >= needed)
        ||| (t0.owner == program && zeroed_prefix(t0.buffer, width) && t0.buffer.len() >= width
            + payload.len())
    })
    &&& match r {
        Ok(()) => {
            &&& t1.owner == program
            &&& t1.buffer.len() >= width + payload.len()
            &&& t1.buffer.take((width + payload.len()) as int) == written
            &&& if t0.owner == unowned_tag() {
                &&& t1.balance == t0.balance + needed
                &&& f1 == ResourceView { balance: (f0.balance - needed) as u64, ..f0 }
                &&& t1.buffer == written
            } else {
                &&& t1.balance == t0.balance
                &&& f1 == f0
                &&& t1.buffer == written + t0.buffer.skip((width + payload.len()) as int)
            }
        },
        Err(e) => {
            &&& t1 == t0
            &&& f1 == f0
            &&& (e is NotEnoughLamports <==> t0.owner == unowned_tag() && f0.balance < needed)
            &&& (e matches FrameworkError::NotEnoughLamports {
                account,
                lamports,
                needed_lamports,
            } ==> account@ == f0.address && lamports == f0.balance && needed_lamports == needed)
            &&& (e is AccountOwnerNotEqual <==> t0.owner != unowned_tag() && t0.owner != program)
            &&& (e matches FrameworkError::AccountOwnerNotEqual { account, owner } ==> account@
                == t0.address && owner@ == t0.owner)
            &&& (e is NonZeroedData <==> t0.owner == program && !zeroed_prefix(t0.buffer, width))
            &&& (e matches FrameworkError::NonZeroedData { account } ==> account@ == t0.address)
            &&& (e is CustomValidation <==> t0.owner == program && zeroed_prefix(t0.buffer, width)
                && t0.buffer.len() < width + payload.len())
        },
    }
}

/// Appends all of `src` to `dst`.
pub fn append_bytes(dst: &mut Vec<u8>, src: &Vec<u8>)
    requires
        old(dst)@.len() + src@.len() <= usize::MAX,
    ensures
        final(dst)@ == old(dst)@ + src@,
{
    let mut i: usize = 0;
    while i < src.len()
        invariant
            i <= src@.len(),
            old(dst)@.len() + src@.len() <= usize::MAX,
            dst@ == old(dst)@ + src@.take(i as int),
        decreases src@.len() - i,
    {
        dst.push(src[i]);
        i += 1;
        proof {
            assert(dst@ =~= old(dst)@ + src@.take(i as int));
        }
    }
    proof {
        assert(old(dst)@ + src@.take(i as int) =~= old(dst)@ + src@);
    }
}

/// Appends the tail of `src` from index `from` on to `dst`.
pub(crate) fn append_suffix(dst: &mut Vec<u8>, src: &Vec<u8>, from: usize)
    requires
        from <= src@.len(),
        old(dst)@.len() + (src@.len() - from) <= usize::MAX,
    ensures
        final(dst)@ == old(dst)@ + src@.skip(from as int),
{
    let n = src.len();
    let mut i: usize = from;
    proof {
        assert(dst@ =~= old(dst)@ + src@.subrange(from as int, from as int));
    }
    while i < n
        invariant
            from <= i <= n,
            n == src@.len(),
            old(dst)@.len() + (src@.len() - from) <= usize::MAX,
            dst@ == old(dst)@ + src@.subrange(from as int, i as int),
        decreases n - i,
    {
        dst.push(src[i]);
        i += 1;
        proof {
            assert(dst@ =~= old(dst)@ + src@.subrange(from as int, i as int));
        }
    }
    proof {
        assert(old(dst)@ + src@.subrange(from as int, n as int) =~= old(dst)@ + src@.skip(
            from as int,
        ));
    }
}

/// True when some byte of the `width`-byte prefix is set.
fn has_nonzero_prefix(buffer: &Vec<u8>, width: usize) -> (r: bool)
    ensures
        r == !zeroed_prefix(buffer@, width as nat),
{
    let n = buffer.len();
    let upto = if width < n {
        width
    } else {
        n
    };
    let mut i: usize = 0;
    while i < upto
        invariant
            i <= upto,
            upto <= buffer@.len(),
            upto == if width < buffer@.len() {
                width as int
            } else {
                buffer@.len() as int
            },
            forall|j: int| 0 <= j < i ==> buffer@[j] == 0,
        decreases upto - i,
    {
        if buffer[i] != 0 {
            return true;
        }
        i += 1;
    }
    false
}

/// A zero-filled buffer of the given length.
pub fn zero_bytes(len: usize) -> (r: Vec<u8>)
    ensures
        r@.len() == len,
        forall|i: int| 0 <= i < len ==> r@[i] == 0,
{
    let mut out: Vec<u8> = Vec::new();
    let mut i: usize = 0;
    while i < len
        invariant
            i <= len,
            out@.len() == i,
            forall|j: int| 0 <= j < i ==> out@[j] == 0,
        decreases len - i,
    {
        out.push(0u8);
        i += 1;
    }
    out
}

/// Brings a target resource into the typed state. An unowned target is created:
/// the rent-derived minimum for its new size moves from the funder to the
/// target, and the target becomes program-owned. A target this program already
/// owns is adopted, which demands an all-zero discriminant region. Any other
/// owner is rejected. On success the discriminant and the initial payload are
/// written at the front of the buffer.
pub fn create_or_adopt(
    target: &mut Resource,
    funder: &mut Resource,
    program_id: &Address,
    rent: &RentTable,
    discriminant: u64,
    width: usize,
    payload: &Vec<u8>,
) -> (r: Result<(), FrameworkError>)
    requires
        old(target).wf(),
        old(funder).wf(),
        program_id.wf(),
        program_id@ != unowned_tag(),
        1 <= width <= 8,
        width + payload@.len() <= usize::MAX,
        old(target)@.balance + old(funder)@.balance <= u64::MAX,
    ensures
        final(target).wf(),
        final(funder).wf(),
        create_or_adopt_post(
            r,
            old(target)@,
            old(funder)@,
            final(target)@,
            final(funder)@,
            program_id@,
            *rent,
            discriminant,
            width as nat,
            payload@,
        ),
{
    let total_len: usize = width + payload.len();
    let needed = rent.minimum_balance(total_len);
    let unowned = system_owner();
    if address_eq(&target.owner, &unowned) {
        if funder.balance < needed {
            return Err(FrameworkError::NotEnoughLamports {
                account: funder.address.duplicate(),
                lamports: funder.balance,
                needed_lamports: needed,
            });
        }
        funder.balance = funder.balance - needed;
        target.balance = target.balance + needed;
        target.owner = program_id.duplicate();
        let mut buf = encode_discriminant(discriminant, width);
        append_bytes(&mut buf, payload);
        target.buffer = buf;
        proof {
            assert(target@.buffer.take(total_len as int) =~= target@.buffer);
            assert(final(funder)@ =~= ResourceView {
                balance: (old(funder)@.balance - needed) as u64,
                ..old(funder)@
            });
        }
        Ok(())
    } else if address_eq(&target.owner, program_id) {
        if has_nonzero_prefix(&target.buffer, width) {
            return Err(FrameworkError::NonZeroedData { account: target.address.duplicate() });
        }
        if target.buffer.len() < total_len {
            return Err(FrameworkError::CustomValidation {
                message: "adopted resource buffer is too small for its typed payload",
            });
        }
        let mut buf = encode_discriminant(discriminant, width);
        append_bytes(&mut buf, payload);
        append_suffix(&mut buf, &target.buffer, total_len);
        proof {
            assert(buf@.take(total_len as int) =~= written_prefix(
                discriminant,
                width as nat,
                payload@,
            ));
        }
        target.buffer = buf;
        Ok(())
    } else {
        Err(FrameworkError::AccountOwnerNotEqual {
            account: target.address.duplicate(),
            owner: target.owner.duplicate(),
        })
    }
}

/// Checks that a resource is a typed member of this program's family: the
/// program owns it and its buffer leads with the expected discriminant. The
/// framework never coerces between family members: any mismatch is terminal.
pub fn validate_discriminant(
    resource: &Resource,
    program_id: &Address,
    expected: u64,
    width: usize,
) -> (r: Result<(), FrameworkError>)
    requires
        resource.wf(),
        program_id.wf(),
        1 <= width <= 8,
    ensures
        r is Ok <==> resource@.owner == program_id@ && discriminant_ok(
            resource@.buffer,
            expected,
            width as nat,
        ),
        r matches Err(e) ==> {
            &&& (e is AccountOwnerNotEqual <==> resource@.owner != program_id@)
            &&& (e matches FrameworkError::AccountOwnerNotEqual { account, owner } ==> account@
                == resource@.address && owner@ == resource@.owner)
            &&& (e is CustomValidation <==> resource@.owner == program_id@
                && resource@.buffer.len() < width)
            &&& (e is MismatchedDiscriminant <==> resource@.owner == program_id@
                && resource@.buffer.len() >= width && le_value(
                resource@.buffer.take(width as int),
            ) != expected)
            &&& (e matches FrameworkError::MismatchedDiscriminant {
                account,
                received,
                expected: exp,
            } ==> account@ == resource@.address && received as nat == le_value(
                resource@.buffer.take(width as int),
            ) && exp == expected)
        },
{
    if !address_eq(&resource.owner, program_id) {
        return Err(FrameworkError::AccountOwnerNotEqual {
            account: resource.address.duplicate(),
            owner: resource.owner.duplicate(),
        });
    }
    match crate::codec::decode_discriminant(&resource.buffer, width) {
        None => Err(FrameworkError::CustomValidation {
            message: "buffer is too short to hold a discriminant",
        }),
        Some(received) => {
            if received == expected {
                Ok(())
            } else {
                Err(FrameworkError::MismatchedDiscriminant {
                    account: resource.address.duplicate(),
                    received,
                    expected,
                })
            }
        },
    }
}

/// An all-zero byte sequence encodes the value zero.
pub proof fn lemma_zeroes_decode_to_zero(s: Seq<u8>)
    requires
        forall|i: int| 0 <= i < s.len() ==> s[i] == 0,
    ensures
        le_value(s) == 0,
    decreases s.len(),
{
    if s.len() > 0 {
        lemma_zeroes_decode_to_zero(s.drop_first());
    }
}

/// Law: a closed resource never passes typed validation again. Its buffer is
/// all zero, and no registered discriminant is zero, so the typed decode must
/// reject it whatever width its family uses.
pub proof fn lemma_closed_resource_is_untyped(buffer: Seq<u8>, expected: u64, width: nat)
    requires
        forall|i: int| 0 <= i < buffer.len() ==> buffer[i] == 0,
        expected >= 1,
    ensures
        !discriminant_ok(buffer, expected, width),
{
    if buffer.len() >= width {
        lemma_zeroes_decode_to_zero(buffer.take(width as int));
    }
}

/// Closes a resource: its whole balance moves to the recipient, its buffer is
/// zeroed, and its owner tag returns to the unowned tag. This must be the
/// terminal operation on the resource within the invocation.
pub fn close_resource(target: &mut Resource, recipient: &mut Resource)
    requires
        old(target).wf(),
        old(recipient).wf(),
        old(target)@.balance + old(recipient)@.balance <= u64::MAX,
    ensures
        final(target).wf(),
        final(recipient).wf(),
        same_identity(old(target)@, final(target)@),
        same_identity(old(recipient)@, final(recipient)@),
        final(target)@.owner == unowned_tag(),
        final(target)@.balance == 0,
        final(target)@.buffer.len() == old(target)@.buffer.len(),
        forall|i: int| 0 <= i < final(target)@.buffer.len() ==> final(target)@.buffer[i] == 0,
        final(recipient)@ == (ResourceView {
            balance: (old(target)@.balance + old(recipient)@.balance) as u64,
            ..old(recipient)@
        }),
{
    recipient.balance = recipient.balance + target.balance;
    target.balance = 0;
    target.owner = system_owner();
    let len = target.buffer.len();
    target.buffer = zero_bytes(len);
    proof {
        assert(final(recipient)@ =~= ResourceView {
            balance: (old(target)@.balance + old(recipient)@.balance) as u64,
            ..old(recipient)@
        });
    }
}

} // verus!
