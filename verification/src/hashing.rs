//! Byte framing of Vulkan values and the 32-bit xxHash digest over it, as
//! used to key caches of compatible render passes and descriptor sets.

use vstd::prelude::*;
use std::hash::Hasher;

verus! {

/// The 32-bit xxHash digest, seed 0, of a byte string, widened to 64 bits.
pub uninterp spec fn xxhash32_digest(bytes: Seq<u8>) -> u64;

/// Hashes `bytes` with `twox_hash::XxHash32` seeded with 0, as one `write`
/// followed by `Hasher::finish`. The contract claims that the result is a
/// function of the bytes alone (the digest named `xxhash32_digest`) and,
/// since `finish` widens the 32-bit state with `u64::from`, that it fits in
/// 32 bits. Which value that is for given bytes is not stated.
#[verifier::external_body]
pub(crate) fn xxhash32(bytes: &Vec<u8>) -> (r: u64)
    ensures
        r == xxhash32_digest(bytes@),
        r <= u32::MAX,
{
    let mut hasher = twox_hash::XxHash32::with_seed(0);
    hasher.write(bytes.as_slice());
    hasher.finish()
}

/// The four little-endian bytes of a 32-bit value.
pub open spec fn u32_le_bytes(v: u32) -> Seq<u8> {
    seq![(v & 0xff) as u8, ((v >> 8u32) & 0xff) as u8, ((v >> 16u32) & 0xff) as u8, ((v >> 24u32) & 0xff) as u8]
}

/// Append the four little-endian bytes of `v`.
pub fn push_u32_le(bytes: &mut Vec<u8>, v: u32)
    ensures
        final(bytes)@ == old(bytes)@ + u32_le_bytes(v),
{
    bytes.push((v & 0xff) as u8);
    bytes.push(((v >> 8u32) & 0xff) as u8);
    bytes.push(((v >> 16u32) & 0xff) as u8);
    bytes.push(((v >> 24u32) & 0xff) as u8);
    assert(bytes@ =~= old(bytes)@ + u32_le_bytes(v));
}

/// Bytes of a sequence of 32-bit codes, each little-endian, in order.
pub open spec fn codes_le_bytes(codes: Seq<i32>) -> Seq<u8>
    decreases codes.len(),
{
    if codes.len() == 0 {
        Seq::empty()
    } else {
        codes_le_bytes(codes.drop_last()) + u32_le_bytes(codes.last() as u32)
    }
}

/// The digest of a sequence of 32-bit codes, each framed as its
/// little-endian bytes.
pub open spec fn codes_digest(codes: Seq<i32>) -> u64 {
    xxhash32_digest(codes_le_bytes(codes))
}

/// Hash a sequence of 32-bit codes, framed as their little-endian bytes.
pub fn hash_codes(codes: &Vec<i32>) -> (r: u64)
    ensures
        r == codes_digest(codes@),
        r <= u32::MAX,
{
    let mut bytes: Vec<u8> = Vec::new();
    let mut i: usize = 0;
    while i < codes.len()
        invariant
            i <= codes@.len(),
            bytes@ == codes_le_bytes(codes@.take(i as int)),
        decreases codes@.len() - i,
    {
        proof {
            assert(codes@.take(i + 1).drop_last() =~= codes@.take(i as int));
        }
        push_u32_le(&mut bytes, codes[i] as u32);
        i += 1;
    }
    assert(codes@.take(i as int) =~= codes@);
    xxhash32(&bytes)
}

} // verus!
