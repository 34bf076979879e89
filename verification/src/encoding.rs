//! Byte-level helpers shared by every module: 32-byte identities, their
//! comparison, and little-endian integer encodings appended to a buffer.

use vstd::prelude::*;
use vstd::bytes::{
    lemma_auto_spec_u16_to_from_le_bytes, lemma_auto_spec_u64_to_from_le_bytes,
    spec_u16_to_le_bytes, spec_u32_to_le_bytes, spec_u64_from_le_bytes, spec_u64_to_le_bytes,
    u16_to_le_bytes, u32_to_le_bytes, u64_from_le_bytes, u64_to_le_bytes,
};
use vstd::slice::slice_subrange;

verus! {

/// A 32-byte account identity.
pub type Pubkey = [u8; 32];

/// The identity of all zeros, which every identity field starts as.
pub const DEFAULT_PUBKEY: Pubkey = [
    0, 0, 0, 0, 0, 0, 0, 0,
    0, 0, 0, 0, 0, 0, 0, 0,
    0, 0, 0, 0, 0, 0, 0, 0,
    0, 0, 0, 0, 0, 0, 0, 0,
];

/// The all-zero identity, used to blank a vacated slot.
pub open spec fn zero_key() -> Seq<u8> {
    Seq::new(32, |i: int| 0u8)
}

/// The unsigned 64-bit pattern of a signed value (two's complement).
pub open spec fn i64_bits(x: i64) -> u64 {
    if x >= 0 {
        x as u64
    } else {
        (x + 0x1_0000_0000_0000_0000) as u64
    }
}

/// The signed value that an unsigned 64-bit pattern stands for.
pub open spec fn bits_i64(b: u64) -> i64 {
    if b < 0x8000_0000_0000_0000 {
        b as i64
    } else {
        (b - 0x1_0000_0000_0000_0000) as i64
    }
}

/// Little-endian encoding of a signed 64-bit value.
pub open spec fn spec_i64_to_le_bytes(x: i64) -> Seq<u8> {
    spec_u64_to_le_bytes(i64_bits(x))
}

/// Little-endian decoding of a signed 64-bit value.
pub open spec fn spec_i64_from_le_bytes(s: Seq<u8>) -> i64 {
    bits_i64(spec_u64_from_le_bytes(s))
}

/// One byte for a flag: 1 when set, 0 otherwise.
pub open spec fn bool_byte(b: bool) -> u8 {
    if b {
        1u8
    } else {
        0u8
    }
}

/// Signed encodings have eight bytes and decode to the value encoded.
pub proof fn lemma_i64_le_round_trip(x: i64)
    ensures
        spec_i64_to_le_bytes(x).len() == 8,
        spec_i64_from_le_bytes(spec_i64_to_le_bytes(x)) == x,
{
    lemma_auto_spec_u64_to_from_le_bytes();
}

/// Unsigned 64-bit encodings have eight bytes and tell values apart.
pub proof fn lemma_u64_le_injective(x: u64, y: u64)
    ensures
        spec_u64_to_le_bytes(x).len() == 8,
        spec_u64_to_le_bytes(x) == spec_u64_to_le_bytes(y) ==> x == y,
{
    lemma_auto_spec_u64_to_from_le_bytes();
}

/// 16-bit encodings have two bytes and tell values apart.
pub proof fn lemma_u16_le_injective(x: u16, y: u16)
    ensures
        spec_u16_to_le_bytes(x).len() == 2,
        spec_u16_to_le_bytes(x) == spec_u16_to_le_bytes(y) ==> x == y,
{
    lemma_auto_spec_u16_to_from_le_bytes();
    assert(spec_u16_to_le_bytes(x).len() == 2);
    assert(spec_u16_to_le_bytes(y).len() == 2);
}

/// Signed 64-bit encodings tell values apart.
pub proof fn lemma_i64_le_injective(x: i64, y: i64)
    ensures
        spec_i64_to_le_bytes(x).len() == 8,
        spec_i64_to_le_bytes(x) == spec_i64_to_le_bytes(y) ==> x == y,
{
    lemma_i64_le_round_trip(x);
    lemma_i64_le_round_trip(y);
}

/// Whether two identities (or digests) hold the same 32 bytes.
pub fn bytes32_eq(a: &[u8; 32], b: &[u8; 32]) -> (same: bool)
    ensures
        same == (a@ == b@),
{
    let mut i: usize = 0;
    while i < 32
        invariant
            i <= 32,
            forall|j: int| 0 <= j < i ==> a@[j] == b@[j],
        decreases 32 - i,
    {
        if a[i] != b[i] {
            return false;
        }
        i = i + 1;
    }
    assert(a@ =~= b@);
    true
}

/// Appends every byte of `src` to `buf`.
pub fn push_bytes(buf: &mut Vec<u8>, src: &[u8])
    ensures
        final(buf)@ == old(buf)@ + src@,
{
    let ghost start = buf@;
    let mut i: usize = 0;
    while i < src.len()
        invariant
            i <= src@.len(),
            buf@ == start + src@.subrange(0, i as int),
        decreases src@.len() - i,
    {
        buf.push(src[i]);
        i = i + 1;
        assert(buf@ =~= start + src@.subrange(0, i as int));
    }
    assert(src@.subrange(0, src@.len() as int) =~= src@);
}

/// Appends the two little-endian bytes of `x`.
pub fn push_u16_le(buf: &mut Vec<u8>, x: u16)
    ensures
        final(buf)@ == old(buf)@ + spec_u16_to_le_bytes(x),
{
    let bytes = u16_to_le_bytes(x);
    push_bytes(buf, bytes.as_slice());
}

/// Appends the four little-endian bytes of `x`.
pub fn push_u32_le(buf: &mut Vec<u8>, x: u32)
    ensures
        final(buf)@ == old(buf)@ + spec_u32_to_le_bytes(x),
{
    let bytes = u32_to_le_bytes(x);
    push_bytes(buf, bytes.as_slice());
}

/// Appends the eight little-endian bytes of `x`.
pub fn push_u64_le(buf: &mut Vec<u8>, x: u64)
    ensures
        final(buf)@ == old(buf)@ + spec_u64_to_le_bytes(x),
{
    let bytes = u64_to_le_bytes(x);
    push_bytes(buf, bytes.as_slice());
}

/// The unsigned bit pattern of a signed value.
pub fn i64_to_bits(x: i64) -> (bits: u64)
    ensures
        bits == i64_bits(x),
{
    let bits = x as u64;
    assert(bits == (if x >= 0 {
        x as int
    } else {
        x + 0x1_0000_0000_0000_0000
    })) by (bit_vector)
        requires
            bits == x as u64,
    ;
    bits
}

/// The signed value of an unsigned bit pattern.
pub fn bits_to_i64(bits: u64) -> (x: i64)
    ensures
        x == bits_i64(bits),
{
    let x = bits as i64;
    assert(x == (if bits < 0x8000_0000_0000_0000 {
        bits as int
    } else {
        bits - 0x1_0000_0000_0000_0000
    })) by (bit_vector)
        requires
            x == bits as i64,
    ;
    x
}

/// Appends the eight little-endian bytes of a signed value.
pub fn push_i64_le(buf: &mut Vec<u8>, x: i64)
    ensures
        final(buf)@ == old(buf)@ + spec_i64_to_le_bytes(x),
{
    push_u64_le(buf, i64_to_bits(x));
}

/// Reads a signed little-endian value from the eight bytes at `offset`.
pub fn read_i64_le(data: &[u8], offset: usize) -> (x: i64)
    requires
        offset + 8 <= data.len(),
    ensures
        x == spec_i64_from_le_bytes(data@.subrange(offset as int, offset + 8)),
{
    let window = slice_subrange(data, offset, offset + 8);
    bits_to_i64(u64_from_le_bytes(window))
}

/// An owned copy of `src`.
pub fn to_vec(src: &[u8]) -> (copy: Vec<u8>)
    ensures
        copy@ == src@,
{
    let mut copy: Vec<u8> = Vec::new();
    push_bytes(&mut copy, src);
    assert(copy@ =~= src@);
    copy
}

} // verus!
