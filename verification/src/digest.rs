use vstd::prelude::*;
use sha1::Digest;

verus! {

/// The MD5 digest (RFC 1321) of a byte string.
pub uninterp spec fn md5_digest(data: Seq<u8>) -> Seq<u8>;

/// The SHA-1 digest (FIPS 180-4) of a byte string.
pub uninterp spec fn sha1_digest(data: Seq<u8>) -> Seq<u8>;

/// `md5::Context::new`, `consume` and `finalize` over `data`. Trusted to return the MD5 digest
/// of `data`, which depends on `data` alone and is 16 bytes long (`md5::Digest` wraps a
/// `[u8; 16]`).
#[verifier::external_body]
pub(crate) fn md5_bytes(data: &[u8]) -> (res: Vec<u8>)
    ensures
        res@ == md5_digest(data@),
        res@.len() == 16,
{
    let mut context = md5::Context::new();
    context.consume(data);
    context.finalize().0.to_vec()
}

/// `sha1::Sha1::new`, `update` and `finalize` over `data`. Trusted to return the SHA-1 digest
/// of `data`, which depends on `data` alone and is 20 bytes long.
#[verifier::external_body]
pub(crate) fn sha1_bytes(data: &[u8]) -> (res: Vec<u8>)
    ensures
        res@ == sha1_digest(data@),
        res@.len() == 20,
{
    let mut hasher = sha1::Sha1::new();
    hasher.update(data);
    hasher.finalize().to_vec()
}

} // verus!
