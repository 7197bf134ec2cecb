//! The hash that stands in for a long signing payload.

use vstd::prelude::*;

verus! {

/// The 32-byte BLAKE2b digest of `data`.
pub uninterp spec fn blake2_256(data: Seq<u8>) -> Seq<u8>;

/// `sp_io::hashing::blake2_256`: the 32-byte BLAKE2b digest of `data`, a
/// function of the bytes alone.
#[verifier::external_body]
pub(crate) fn blake2_256_of(data: &[u8]) -> (digest: [u8; 32])
    ensures
        digest@ == blake2_256(data@),
{
    sp_io::hashing::blake2_256(data)
}

} // verus!
