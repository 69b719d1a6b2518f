//! The hash collaborator: SHA3-256 digests, and hashing to a scalar.

use vstd::prelude::*;
use crate::group::{scalar_from_bytes_mod_order, scalar_mod_of, Scalar};

verus! {

/// The 32-byte SHA3-256 digest of a byte string.
pub uninterp spec fn sha256_of(b: Seq<u8>) -> Seq<u8>;

pub struct Hasher {}

impl Hasher {
    /// Relies on sha3::Sha3_256 through the Digest trait: the 32-byte
    /// SHA3-256 digest of the input, a function of the input alone.
    #[verifier::external_body]
    pub fn sha_256(data: &[u8]) -> (r: Vec<u8>)
        ensures
            r@ == sha256_of(data@),
            r@.len() == 32,
    {
        let mut hasher = <sha3::Sha3_256 as sha3::Digest>::new();
        sha3::Digest::update(&mut hasher, data);
        sha3::Digest::finalize(hasher).to_vec()
    }
}

/// Hashes a byte string into a scalar: the digest read as a 256-bit
/// little-endian integer, reduced mod the group order.
pub fn hash_to_scalar(input: &[u8]) -> (r: Scalar)
    ensures
        r@ == scalar_mod_of(sha256_of(input@)),
{
    let digest = Hasher::sha_256(input);
    scalar_from_bytes_mod_order(&digest)
}

} // verus!
