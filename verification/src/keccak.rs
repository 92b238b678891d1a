use sha3::Digest;
use vstd::prelude::*;

verus! {

/// The Keccak-256 digest (the pre-standard SHA-3 variant used by Ethereum)
/// of a byte string.
pub uninterp spec fn keccak256_digest(data: Seq<u8>) -> Seq<u8>;

/// Hashes `data` with `sha3::Keccak256::digest`.
///
/// Trusted: the result is the Keccak-256 digest of the input, a function of
/// the bytes alone, and it is 32 bytes long (the hasher's fixed output size).
#[verifier::external_body]
fn keccak256_wrapped(data: &[u8]) -> (res: [u8; 32])
    ensures
        res@ == keccak256_digest(data@),
{
    let hash = sha3::Keccak256::digest(data);
    let mut out = [0_u8; 32];
    out.copy_from_slice(&hash);
    out
}

/// Keccak-256 of `bytes`.
pub fn keccak256(bytes: &[u8]) -> (res: [u8; 32])
    ensures
        res@ == keccak256_digest(bytes@),
        keccak256_digest(bytes@).len() == 32,
{
    let res = keccak256_wrapped(bytes);
    assert(res@.len() == 32);
    res
}

} // verus!
