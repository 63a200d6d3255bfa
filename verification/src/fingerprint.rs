//! The 128-bit content fingerprint of a buffered body and its little-endian
//! byte serialization.

use vstd::prelude::*;

verus! {

/// The 128-bit fingerprint that `xxhash_rust::xxh3::xxh3_128` computes for a
/// byte sequence. The digest is a function of the bytes alone: deterministic
/// and order-sensitive, collision-resistant only probabilistically.
pub uninterp spec fn xxh3_128_of(b: Seq<u8>) -> u128;

/// Relies on `xxhash_rust::xxh3::xxh3_128`: a pure function of the input
/// bytes, never failing, the same on every machine.
#[verifier::external_body]
pub(crate) fn fingerprint(b: &[u8]) -> (r: u128)
    ensures
        r == xxh3_128_of(b@),
{
    xxhash_rust::xxh3::xxh3_128(b)
}

/// The sixteen bytes of a fingerprint in little-endian order.
pub open spec fn le_bytes(x: u128) -> Seq<u8> {
    Seq::new(16, |i: int| (x >> ((8 * i) as u128)) as u8)
}

/// Serializes a fingerprint into its sixteen little-endian bytes.
pub fn fingerprint_bytes(x: u128) -> (r: Vec<u8>)
    ensures
        r@ == le_bytes(x),
{
    let mut r: Vec<u8> = Vec::new();
    let mut i: usize = 0;
    while i < 16
        invariant
            i <= 16,
            r@.len() == i,
            forall|j: int| 0 <= j < i ==> r@[j] == le_bytes(x)[j],
        decreases 16 - i,
    {
        let shift: u128 = (8 * i) as u128;
        let b: u8 = #[verifier::truncate] ((x >> shift) as u8);
        r.push(b);
        i = i + 1;
    }
    proof {
        assert(r@ =~= le_bytes(x));
    }
    r
}

} // verus!
