//! Hashing from `sp_crypto_hashing`.
use vstd::prelude::*;

verus! {

/// The BLAKE2b-256 digest of `data`, as `sp_crypto_hashing::blake2_256`
/// computes it.
pub uninterp spec fn blake2_256_of(data: Seq<u8>) -> Seq<u8>;

/// `sp_crypto_hashing::blake2_256`: a 32-byte digest that depends on the
/// input bytes alone.
#[verifier::external_body]
pub(crate) fn blake2_256(data: &[u8]) -> (r: [u8; 32])
    ensures
        r@ == blake2_256_of(data@),
{
    sp_crypto_hashing::blake2_256(data)
}

} // verus!
