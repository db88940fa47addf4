//! The two hash functions that the scripts and the deployer use.
use sha2::Digest;
use vstd::prelude::*;

verus! {

/// The digest that `ckb_hash::blake2b_256` gives of some bytes: blake2b with a
/// 32-byte output and CKB's personalization.
pub uninterp spec fn blake2b_digest(data: Seq<u8>) -> Seq<u8>;

/// `ckb_hash::blake2b_256`: the result is the named digest of the bytes.
#[verifier::external_body]
pub(crate) fn blake2b_256(data: &[u8]) -> (digest: [u8; 32])
    ensures
        digest@ == blake2b_digest(data@),
{
    ckb_hash::blake2b_256(data)
}

/// The SHA-256 digest that `sha2::Sha256` gives of some bytes.
pub uninterp spec fn sha256_digest(data: Seq<u8>) -> Seq<u8>;

/// `sha2::Sha256::digest`: the result is the named digest of the bytes.
#[verifier::external_body]
pub(crate) fn sha256(data: &[u8]) -> (digest: [u8; 32])
    ensures
        digest@ == sha256_digest(data@),
{
    sha2::Sha256::digest(data).into()
}

} // verus!
