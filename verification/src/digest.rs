//! The hash primitives behind the `Hash` natives.
//!
//! The digests themselves are computed by the `sha2`, `sha3` and `ripemd`
//! crates. Each is a function of the input bytes alone; contracts refer to it
//! by name.

use sha3::Digest;
use vstd::prelude::*;

verus! {

/// The Keccak-256 digest of `input`.
pub uninterp spec fn keccak_256_digest(input: Seq<u8>) -> Seq<u8>;

/// The RIPEMD-160 digest of `input`.
pub uninterp spec fn ripemd_160_digest(input: Seq<u8>) -> Seq<u8>;

/// The SHA-256 digest of `input`.
pub uninterp spec fn sha2_256_digest(input: Seq<u8>) -> Seq<u8>;

/// The SHA3-256 digest of `input`.
pub uninterp spec fn sha3_256_digest(input: Seq<u8>) -> Seq<u8>;

/// Calls `sha3::Keccak256::digest`. Trusted: the result is the Keccak-256
/// digest of `input`, the same for the same bytes.
#[verifier::external_body]
pub(crate) fn keccak_256(input: &Vec<u8>) -> (digest: Vec<u8>)
    ensures
        digest@ == keccak_256_digest(input@),
{
    sha3::Keccak256::digest(input).to_vec()
}

/// Calls `ripemd::Ripemd160::digest`. Trusted: the result is the RIPEMD-160
/// digest of `input`, the same for the same bytes.
#[verifier::external_body]
pub(crate) fn ripemd_160(input: &Vec<u8>) -> (digest: Vec<u8>)
    ensures
        digest@ == ripemd_160_digest(input@),
{
    ripemd::Ripemd160::digest(input).to_vec()
}

/// Calls `sha2::Sha256::digest`. Trusted: the result is the SHA-256 digest of
/// `input`, the same for the same bytes.
#[verifier::external_body]
pub(crate) fn sha2_256(input: &Vec<u8>) -> (digest: Vec<u8>)
    ensures
        digest@ == sha2_256_digest(input@),
{
    sha2::Sha256::digest(input).to_vec()
}

/// Calls `sha3::Sha3_256::digest`. Trusted: the result is the SHA3-256 digest
/// of `input`, the same for the same bytes.
#[verifier::external_body]
pub(crate) fn sha3_256(input: &Vec<u8>) -> (digest: Vec<u8>)
    ensures
        digest@ == sha3_256_digest(input@),
{
    sha3::Sha3_256::digest(input).to_vec()
}

} // verus!
