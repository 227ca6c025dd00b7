//! The fingerprint a mutation's idempotency receipt stores of its request.
use vstd::prelude::*;

verus! {

/// Name for the SHA-256 digest that `sha2::Sha256::digest` computes of `bytes`.
pub uninterp spec fn sha256_of(bytes: Seq<u8>) -> Seq<u8>;

/// Calls `sha2::Sha256::digest`. Trusted: the result is `sha256_of(data)`,
/// and a SHA-256 digest is 32 bytes long.
#[verifier::external_body]
fn sha256_digest(data: &[u8]) -> (r: Vec<u8>)
    ensures
        r@ == sha256_of(data@),
        r@.len() == 32,
{
    <sha2::Sha256 as sha2::Digest>::digest(data).to_vec()
}

/// The hash of a request's JSON wire form, stored with its command receipt:
/// a retry with the same key must send a request with the same hash.
pub fn request_hash(wire: &[u8]) -> (r: Vec<u8>)
    ensures
        r@ == sha256_of(wire@),
        r@.len() == 32,
{
    sha256_digest(wire)
}

} // verus!
