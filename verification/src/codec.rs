//! The on-wire discriminant format: a compact little-endian tag whose width is
//! the smallest number of bytes that fits every member of a type family, plus
//! the little-endian byte helpers the typed payloads use.

use vstd::prelude::*;
use vstd::arithmetic::div_mod::{lemma_fundamental_div_mod, lemma_fundamental_div_mod_converse};
use crate::resource::Address;

verus! {

/// 256 raised to `w`: the number of values a `w`-byte field can hold.
pub open spec fn pow256(w: nat) -> nat
    decreases w,
{
    if w == 0 {
        1
    } else {
        256 * pow256((w - 1) as nat)
    }
}

/// The little-endian bytes of `value` in a `w`-byte field (higher bytes of a
/// too-large value are cut off).
pub open spec fn le_bytes(value: nat, width: nat) -> Seq<u8>
    decreases width,
{
    if width == 0 {
        Seq::empty()
    } else {
        seq![(value % 256) as u8] + le_bytes(value / 256, (width - 1) as nat)
    }
}

/// The value that a little-endian byte sequence encodes.
pub open spec fn le_value(s: Seq<u8>) -> nat
    decreases s.len(),
{
    if s.len() == 0 {
        0
    } else {
        (s[0] + 256 * le_value(s.drop_first())) as nat
    }
}

/// Powers of 256 grow monotonically.
pub proof fn lemma_pow256_monotonic(a: nat, b: nat)
    requires
        a <= b,
    ensures
        pow256(a) <= pow256(b),
    decreases b,
{
    if a < b {
        lemma_pow256_monotonic(a, (b - 1) as nat);
    }
}

/// An eight-byte field holds every 64-bit value.
pub proof fn lemma_pow256_8()
    ensures
        pow256(8) == 0x1_0000_0000_0000_0000,
{
    assert(pow256(0) == 1);
    assert(pow256(1) == 256);
    assert(pow256(2) == 0x1_0000);
    assert(pow256(3) == 0x100_0000);
    assert(pow256(4) == 0x1_0000_0000);
    assert(pow256(5) == 0x100_0000_0000);
    assert(pow256(6) == 0x1_0000_0000_0000);
    assert(pow256(7) == 0x100_0000_0000_0000);
    assert(pow256(8) == 0x1_0000_0000_0000_0000);
}

/// A `w`-byte field encodes exactly `w` bytes.
pub proof fn lemma_le_bytes_len(value: nat, width: nat)
    ensures
        le_bytes(value, width).len() == width,
    decreases width,
{
    if width > 0 {
        lemma_le_bytes_len(value / 256, (width - 1) as nat);
    }
}

/// A byte sequence can encode nothing as large as `pow256` of its length.
pub proof fn lemma_le_value_bound(s: Seq<u8>)
    ensures
        le_value(s) < pow256(s.len()),
    decreases s.len(),
{
    if s.len() > 0 {
        lemma_le_value_bound(s.drop_first());
    }
}

/// Law: decoding an encoded discriminant gives the discriminant back, for any
/// value that its family's field width can hold.
pub proof fn lemma_discriminant_round_trip(value: nat, width: nat)
    requires
        value < pow256(width),
    ensures
        le_value(le_bytes(value, width)) == value,
    decreases width,
{
    if width > 0 {
        let q = value / 256;
        lemma_fundamental_div_mod(value as int, 256);
        assert(q < pow256((width - 1) as nat)) by (nonlinear_arith)
            requires
                value < 256 * pow256((width - 1) as nat),
                256 * q <= value,
        {}
        lemma_discriminant_round_trip(q, (width - 1) as nat);
        let s = le_bytes(value, width);
        assert(s.drop_first() =~= le_bytes(q, (width - 1) as nat));
    }
}

/// Law: encoding a decoded field reproduces its bytes exactly.
pub proof fn lemma_le_bytes_of_value(s: Seq<u8>)
    ensures
        le_bytes(le_value(s), s.len()) == s,
    decreases s.len(),
{
    if s.len() > 0 {
        let t = s.drop_first();
        let v = le_value(s);
        lemma_fundamental_div_mod_converse(v as int, 256, le_value(t) as int, s[0] as int);
        lemma_le_bytes_of_value(t);
        assert(le_bytes(v, s.len()) =~= s);
    }
}

/// The smallest field width (in bytes, at most eight) that holds every
/// discriminant of a family with `count` members, the tags being 1 through
/// `count`.
pub fn width_for_count(count: u64) -> (w: usize)
    requires
        count >= 1,
    ensures
        1 <= w <= 8,
        (count as nat) < pow256(w as nat),
        forall|w2: nat| 1 <= w2 < w ==> (count as nat) >= #[trigger] pow256(w2),
{
    let mut w: usize = 1;
    let mut limit: u128 = 256;
    proof {
        lemma_pow256_8();
        assert(pow256(0) == 1);
        assert(pow256(1) == 256);
    }
    while (count as u128) >= limit
        invariant
            1 <= w <= 8,
            limit == pow256(w as nat),
            forall|w2: nat| 1 <= w2 < w ==> (count as nat) >= #[trigger] pow256(w2),
            pow256(8) == 0x1_0000_0000_0000_0000,
        decreases 8 - w,
    {
        proof {
            if w >= 8 {
                lemma_pow256_monotonic(8, w as nat);
            }
        }
        w += 1;
        limit = limit * 256;
    }
    w
}

/// Writes `value` into a little-endian field of `width` bytes.
pub fn encode_discriminant(value: u64, width: usize) -> (r: Vec<u8>)
    requires
        1 <= width <= 8,
    ensures
        r@ == le_bytes(value as nat, width as nat),
        r@.len() == width,
{
    let mut r: Vec<u8> = Vec::new();
    let mut v: u64 = value;
    let mut i: usize = 0;
    proof {
        assert(le_bytes(value as nat, width as nat) =~= r@ + le_bytes(v as nat, width as nat));
    }
    while i < width
        invariant
            i <= width,
            r@.len() == i,
            le_bytes(value as nat, width as nat) == r@ + le_bytes(v as nat, (width - i) as nat),
        decreases width - i,
    {
        let b: u8 = (v % 256) as u8;
        proof {
            assert(le_bytes(v as nat, (width - i) as nat)
                == seq![b] + le_bytes((v as nat) / 256, (width - i - 1) as nat));
            assert((v as nat) / 256 == (v / 256) as nat);
            assert(r@ + (seq![b] + le_bytes((v / 256) as nat, (width - i - 1) as nat))
                =~= (r@ + seq![b]) + le_bytes((v / 256) as nat, (width - i - 1) as nat));
        }
        r.push(b);
        v = v / 256;
        i += 1;
    }
    proof {
        assert(r@ + le_bytes(v as nat, 0) =~= r@);
        lemma_le_bytes_len(value as nat, width as nat);
    }
    r
}

/// Reads the little-endian field of `width` bytes that starts the buffer:
/// exactly what a typed decode must consume before the payload.
pub fn decode_discriminant(buffer: &Vec<u8>, width: usize) -> (r: Option<u64>)
    requires
        1 <= width <= 8,
    ensures
        buffer@.len() >= width ==> {
            &&& r matches Some(v)
            &&& v as nat == le_value(buffer@.take(width as int))
        },
        buffer@.len() < width ==> r is None,
{
    if buffer.len() < width {
        return None;
    }
    let v = read_le_field(buffer, 0, width);
    proof {
        assert(buffer@.subrange(0, width as int) =~= buffer@.take(width as int));
    }
    Some(v)
}

/// Reads a little-endian field of `width` bytes at `offset`.
pub fn read_le_field(buffer: &Vec<u8>, offset: usize, width: usize) -> (r: u64)
    requires
        1 <= width <= 8,
        offset + width <= buffer@.len(),
    ensures
        r as nat == le_value(buffer@.subrange(offset as int, (offset + width) as int)),
{
    let n: usize = buffer.len();
    let mut v: u64 = 0;
    let mut i: usize = width;
    proof {
        lemma_pow256_8();
        assert(buffer@.subrange((offset + width) as int, (offset + width) as int) =~= Seq::<u8>::empty());
    }
    while i > 0
        invariant
            i <= width <= 8,
            offset + width <= n,
            n == buffer@.len(),
            v as nat == le_value(buffer@.subrange((offset + i) as int, (offset + width) as int)),
            pow256(8) == 0x1_0000_0000_0000_0000,
        decreases i,
    {
        i -= 1;
        let suffix = Ghost(buffer@.subrange((offset + i) as int, (offset + width) as int));
        proof {
            lemma_le_value_bound(suffix@);
            lemma_pow256_monotonic(suffix@.len(), 8);
            assert(suffix@.drop_first() =~= buffer@.subrange((offset + i + 1) as int, (offset + width) as int));
            assert(le_value(suffix@) == suffix@[0] + 256 * le_value(suffix@.drop_first()));
        }
        v = v * 256 + (buffer[offset + i] as u64);
    }
    v
}

/// Reads the 32-byte address stored at `offset`.
pub fn read_address(buffer: &Vec<u8>, offset: usize) -> (r: Address)
    requires
        offset + 32 <= buffer@.len(),
    ensures
        r.wf(),
        r@ == buffer@.subrange(offset as int, (offset + 32) as int),
{
    let n: usize = buffer.len();
    let mut bytes: Vec<u8> = Vec::new();
    let mut i: usize = 0;
    while i < 32
        invariant
            i <= 32,
            offset + 32 <= n,
            n == buffer@.len(),
            bytes@ == buffer@.subrange(offset as int, (offset + i) as int),
        decreases 32 - i,
    {
        bytes.push(buffer[offset + i]);
        i += 1;
        proof {
            assert(bytes@ =~= buffer@.subrange(offset as int, (offset + i) as int));
        }
    }
    Address { bytes }
}

} // verus!
