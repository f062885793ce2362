//! SHA-256, RIPEMD-160 and HASH160.
use vstd::prelude::*;
use sha2::Digest;

verus! {

/// The SHA-256 digest of `data`.
pub uninterp spec fn sha256_of(data: Seq<u8>) -> Seq<u8>;

/// The RIPEMD-160 digest of `data`.
pub uninterp spec fn ripemd160_of(data: Seq<u8>) -> Seq<u8>;

/// SHA-256 followed by RIPEMD-160.
pub open spec fn hash160_of(data: Seq<u8>) -> Seq<u8> {
    ripemd160_of(sha256_of(data))
}

/// Relies on sha2::Sha256::digest: the 32-byte SHA-256 digest of `data`.
#[verifier::external_body]
pub fn sha256(data: &[u8]) -> (r: Vec<u8>)
    ensures
        r@ == sha256_of(data@),
        r@.len() == 32,
{
    sha2::Sha256::digest(data).to_vec()
}

/// Relies on ripemd::Ripemd160::digest: the 20-byte RIPEMD-160 digest of `data`.
#[verifier::external_body]
pub fn ripemd160(data: &[u8]) -> (r: Vec<u8>)
    ensures
        r@ == ripemd160_of(data@),
        r@.len() == 20,
{
    ripemd::Ripemd160::digest(data).to_vec()
}

/// SHA-256 followed by RIPEMD-160, also known as HASH160.
pub fn hash160(bytes: &[u8]) -> (r: Vec<u8>)
    ensures
        r@ == hash160_of(bytes@),
        r@.len() == 20,
{
    let h = sha256(bytes);
    ripemd160(h.as_slice())
}

/// SHA-256 applied twice.
pub fn sha256d(bytes: &[u8]) -> (r: Vec<u8>)
    ensures
        r@ == sha256_of(sha256_of(bytes@)),
        r@.len() == 32,
{
    let h = sha256(bytes);
    sha256(h.as_slice())
}

} // verus!
