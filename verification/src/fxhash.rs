//! A 64-bit rolling multiplicative hash over the bytes of a string, and the
//! family of 32-bit hashes derived from its two halves by double hashing.

use vstd::prelude::*;
use vstd::string::StringSliceAdditionalSpecFns;

verus! {

/// The odd multiplier of the rolling hash.
pub const SEED: u64 = 0x517cc1b727220a95;

/// `v` rotated left by five bits.
pub open spec fn rotate_left_5(v: u64) -> u64 {
    (v << 5) | (v >> 59)
}

/// One step of the rolling hash: rotate, mix in the byte, multiply.
pub open spec fn hash_step(acc: u64, byte: u8) -> u64 {
    (rotate_left_5(acc) ^ (byte as u64)).wrapping_mul(SEED)
}

/// The hash of a byte sequence, folded from an accumulator of zero.
pub open spec fn spec_fxhash64(bytes: Seq<u8>) -> u64
    decreases bytes.len(),
{
    if bytes.len() == 0 {
        0
    } else {
        hash_step(spec_fxhash64(bytes.drop_last()), bytes.last())
    }
}

/// The low 32 bits of a 64-bit hash.
pub open spec fn low_half(hash: u64) -> u32 {
    (hash & 0xffff_ffff) as u32
}

/// The high 32 bits of a 64-bit hash.
pub open spec fn high_half(hash: u64) -> u32 {
    (hash >> 32) as u32
}

/// The `i`-th hash of the double-hashing family: `low + i * high` in 32-bit
/// wrapping arithmetic.
pub open spec fn nth_hash(hash: u64, i: u32) -> u32 {
    low_half(hash).wrapping_add(high_half(hash).wrapping_mul(i))
}

/// Hashes the UTF-8 bytes of `s`.
pub fn fxhash64(s: &str) -> (hash: u64)
    ensures
        hash == spec_fxhash64(s.spec_bytes()),
{
    let bytes = s.as_bytes();
    let mut v: u64 = 0;
    let mut i: usize = 0;
    while i < bytes.len()
        invariant
            i <= bytes@.len(),
            v == spec_fxhash64(bytes@.take(i as int)),
        decreases bytes.len() - i,
    {
        let c: u8 = bytes[i];
        proof {
            let next = bytes@.take(i + 1);
            assert(next.drop_last() =~= bytes@.take(i as int));
            assert(next.last() == c);
        }
        v = (((v << 5) | (v >> 59)) ^ (c as u64)).wrapping_mul(SEED);
        i += 1;
    }
    proof {
        assert(bytes@.take(i as int) =~= bytes@);
    }
    v
}

/// The first `count` hashes of the double-hashing family of `s`.
pub fn fxhash32_multi(s: &str, count: u32) -> (hashes: Vec<u32>)
    ensures
        hashes@.len() == count,
        forall|i: int|
            0 <= i < count ==> hashes@[i] == nth_hash(spec_fxhash64(s.spec_bytes()), i as u32),
{
    let hash = fxhash64(s);
    let hash1: u32 = (hash & 0xffff_ffff) as u32;
    let hash2: u32 = (hash >> 32) as u32;
    let mut hashes: Vec<u32> = Vec::new();
    let mut i: u32 = 0;
    while i < count
        invariant
            i <= count,
            hash1 == low_half(hash),
            hash2 == high_half(hash),
            hashes@.len() == i,
            forall|j: int| 0 <= j < i ==> hashes@[j] == nth_hash(hash, j as u32),
        decreases count - i,
    {
        hashes.push(hash1.wrapping_add(hash2.wrapping_mul(i)));
        i += 1;
    }
    hashes
}

} // verus!
