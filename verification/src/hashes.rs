use vstd::prelude::*;

use digest::Digest;

verus! {

/// Width in bytes of an MD5 digest.
pub const MD5_LEN: usize = 16;

/// Width in bytes of a SHA-1 digest.
pub const SHA1_LEN: usize = 20;

/// Width in bytes of a SHA-512 digest.
pub const SHA512_LEN: usize = 64;

/// The MD5 digest of a byte sequence, as the standard algorithm defines it:
/// a function of the input bytes alone.
pub uninterp spec fn md5_of(bytes: Seq<u8>) -> Seq<u8>;

/// The SHA-1 digest of a byte sequence, as the standard algorithm defines it:
/// a function of the input bytes alone.
pub uninterp spec fn sha1_of(bytes: Seq<u8>) -> Seq<u8>;

/// The SHA-512 digest of a byte sequence, as the standard algorithm defines
/// it: a function of the input bytes alone.
pub uninterp spec fn sha512_of(bytes: Seq<u8>) -> Seq<u8>;

/// Relies on `md5::Md5::digest` of the `md-5` crate: the standard 16-byte MD5
/// digest of the input, determined by the input bytes alone.
#[verifier::external_body]
fn md5_raw(bytes: &[u8]) -> (r: Vec<u8>)
    ensures
        r@ == md5_of(bytes@),
        r@.len() == MD5_LEN,
{
    md5::Md5::digest(bytes).to_vec()
}

/// Relies on `sha1::Sha1::digest` of the `sha1` crate: the standard 20-byte
/// SHA-1 digest of the input, determined by the input bytes alone.
#[verifier::external_body]
fn sha1_raw(bytes: &[u8]) -> (r: Vec<u8>)
    ensures
        r@ == sha1_of(bytes@),
        r@.len() == SHA1_LEN,
{
    sha1::Sha1::digest(bytes).to_vec()
}

/// Relies on `ring::digest::digest` with `ring::digest::SHA512`: the standard
/// 64-byte SHA-512 digest of the input, determined by the input bytes alone.
#[verifier::external_body]
fn sha512_raw(bytes: &[u8]) -> (r: Vec<u8>)
    ensures
        r@ == sha512_of(bytes@),
        r@.len() == SHA512_LEN,
{
    ring::digest::digest(&ring::digest::SHA512, bytes).as_ref().to_vec()
}

/// One fanout worker's job: the MD5 digest of the whole byte view.
pub fn md5_digest(bytes: &[u8]) -> (r: Vec<u8>)
    ensures
        r@ == md5_of(bytes@),
        r@.len() == MD5_LEN,
{
    md5_raw(bytes)
}

/// One fanout worker's job: the SHA-1 digest of the whole byte view.
pub fn sha1_digest(bytes: &[u8]) -> (r: Vec<u8>)
    ensures
        r@ == sha1_of(bytes@),
        r@.len() == SHA1_LEN,
{
    sha1_raw(bytes)
}

/// One fanout worker's job: the SHA-512 digest of the whole byte view.
pub fn sha512_digest(bytes: &[u8]) -> (r: Vec<u8>)
    ensures
        r@ == sha512_of(bytes@),
        r@.len() == SHA512_LEN,
{
    sha512_raw(bytes)
}

} // verus!
