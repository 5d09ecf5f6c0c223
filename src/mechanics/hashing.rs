//! Hash-based seeding of the newest version: five 32-bit words packed
//! little-endian and hashed with XXH32.
use vstd::prelude::*;

use crate::rng::trunc_div;

verus! {

/// What XXH32 with seed 0 gives for a byte string.
pub uninterp spec fn xxh32_of(bytes: Seq<u8>) -> u32;

/// Relies on `xxhash_rust::xxh32::xxh32`: a function of the bytes and the
/// seed alone, here always seed 0.
#[verifier::external_body]
fn xxh32_seed0(bytes: &[u8]) -> (r: u32)
    ensures
        r == xxh32_of(bytes@),
{
    xxhash_rust::xxh32::xxh32(bytes, 0)
}

/// The four bytes of a 32-bit word, least significant first.
pub open spec fn le_bytes(x: i32) -> Seq<u8> {
    let u = x as u32;
    seq![u as u8, (u >> 8u32) as u8, (u >> 16u32) as u8, (u >> 24u32) as u8]
}

/// The words `a, b, 0, 0, 0` as twenty little-endian bytes.
pub open spec fn seed_words(a: i32, b: i32) -> Seq<u8> {
    le_bytes(a) + le_bytes(b) + Seq::new(12, |i: int| 0u8)
}

/// The generator seed hashed from two values.
pub open spec fn hashed_seed(a: i32, b: i32) -> i32 {
    xxh32_of(seed_words(a, b)) as i32
}

/// The generator seed of the newest version for a day and a world:
/// `hash(day, seed / 2)`.
pub open spec fn day_hash_seed(day: i32, seed: i32) -> i32 {
    hashed_seed(day, trunc_div(seed as int, 2) as i32)
}

fn push_word(v: &mut Vec<u8>, x: i32)
    ensures
        final(v)@ == old(v)@ + le_bytes(x),
{
    #[verifier::truncate]
    let u: u32 = x as u32;
    #[verifier::truncate]
    let b0: u8 = u as u8;
    #[verifier::truncate]
    let b1: u8 = (u >> 8u32) as u8;
    #[verifier::truncate]
    let b2: u8 = (u >> 16u32) as u8;
    #[verifier::truncate]
    let b3: u8 = (u >> 24u32) as u8;
    v.push(b0);
    v.push(b1);
    v.push(b2);
    v.push(b3);
    assert(v@ =~= old(v)@ + le_bytes(x));
}

/// Hashes `a, b, 0, 0, 0` into a generator seed.
pub fn hash_seed(a: i32, b: i32) -> (r: i32)
    ensures
        r == hashed_seed(a, b),
{
    let mut bytes: Vec<u8> = Vec::new();
    push_word(&mut bytes, a);
    push_word(&mut bytes, b);
    let ghost words = bytes@;
    let mut k: usize = 0;
    while k < 12
        invariant
            k <= 12,
            bytes@ =~= words + Seq::new(k as nat, |i: int| 0u8),
        decreases 12 - k,
    {
        bytes.push(0u8);
        k = k + 1;
    }
    assert(bytes@ =~= seed_words(a, b));
    let h = xxh32_seed0(bytes.as_slice());
    #[verifier::truncate]
    let r: i32 = h as i32;
    r
}

} // verus!
