//! The hash that the verifier contract uses for its merkle tree: Keccak-256.

use crate::primitives::{FixedBytes, H256};
use sha3::{Digest, Keccak256};
use vstd::prelude::*;

verus! {

/// The Keccak-256 digest of `data`, as `sha3::Keccak256` computes it.
///
/// Nothing is stated of its value; the executable code reaches it only
/// through [`hash_concat`].
pub uninterp spec fn keccak256(data: Seq<u8>) -> Seq<u8>;

/// Keccak-256 gives the same digest for two different inputs.
pub open spec fn keccak256_collides() -> bool {
    exists|a: Seq<u8>, b: Seq<u8>| a != b && #[trigger] keccak256(a) == #[trigger] keccak256(b)
}

/// The digest of an inner tree node with the children `left` and `right`.
pub open spec fn hash_pair(left: Seq<u8>, right: Seq<u8>) -> Seq<u8> {
    keccak256(left + right)
}

/// Calls `sha3::Keccak256::digest` (the `Digest::digest` of the `digest`
/// crate, which feeds `data` to a fresh hasher and finalizes it). Trusted:
/// the 32 bytes that come back are the digest that [`keccak256`] names.
#[verifier::external_body]
fn keccak256_digest(data: &Vec<u8>) -> (out: [u8; 32])
    ensures
        out@ == keccak256(data@),
{
    Keccak256::digest(data).into()
}

/// Hashes the 64 bytes `left ++ right`.
pub fn hash_concat(left: &H256, right: &H256) -> (out: H256)
    ensures
        out@ == hash_pair(left@, right@),
{
    let mut data: Vec<u8> = Vec::with_capacity(64);
    let mut i: usize = 0;
    while i < 32
        invariant
            i <= 32,
            data@ == left@.take(i as int),
        decreases 32 - i,
    {
        data.push(left.bytes[i]);
        i += 1;
    }
    let mut j: usize = 0;
    while j < 32
        invariant
            j <= 32,
            data@ == left@ + right@.take(j as int),
        decreases 32 - j,
    {
        data.push(right.bytes[j]);
        j += 1;
    }
    assert(data@ == left@ + right@);
    FixedBytes::from_bytes(keccak256_digest(&data))
}

} // verus!
