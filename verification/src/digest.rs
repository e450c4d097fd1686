//! SHA-256, from the `sha2` crate.
use vstd::prelude::*;

verus! {

/// The SHA-256 digest of a byte string, as `sha2::Sha256` computes it.
pub uninterp spec fn spec_sha256(data: Seq<u8>) -> Seq<u8>;

/// Wraps `sha2::Sha256::digest`. The contract only names the digest: it is
/// a function of the input bytes alone (32 bytes by the result type).
/// Nothing else about SHA-256 is assumed.
#[verifier::external_body]
pub fn sha256(data: &[u8]) -> (r: [u8; 32])
    ensures
        r@ == spec_sha256(data@),
{
    <sha2::Sha256 as sha2::Digest>::digest(data).into()
}

} // verus!
