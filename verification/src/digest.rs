//! Checksums, computed by the `md-5`, `sha1`, `sha2` and `subtle` crates.
use sha2::Digest;
use subtle::ConstantTimeEq;
use vstd::prelude::*;

verus! {

/// The MD5 hasher of the `md-5` crate.
#[verifier::external_type_specification]
#[verifier::external_body]
pub struct ExMd5(md5::Md5);

/// The SHA-1 hasher of the `sha1` crate.
#[verifier::external_type_specification]
#[verifier::external_body]
pub struct ExSha1(sha1::Sha1);

/// The bytes that an MD5 hasher was fed so far.
pub uninterp spec fn md5_input(hasher: md5::Md5) -> Seq<u8>;

/// The bytes that a SHA-1 hasher was fed so far.
pub uninterp spec fn sha1_input(hasher: sha1::Sha1) -> Seq<u8>;

/// The MD5 checksum of bytes.
pub uninterp spec fn md5_sum(bytes: Seq<u8>) -> Seq<u8>;

/// The SHA-1 checksum of bytes.
pub uninterp spec fn sha1_sum(bytes: Seq<u8>) -> Seq<u8>;

/// The SHA-256 checksum of bytes.
pub uninterp spec fn sha256_sum(bytes: Seq<u8>) -> Seq<u8>;

/// `Md5::new`: a hasher that was fed nothing.
#[verifier::external_body]
pub(crate) fn md5_new() -> (hasher: md5::Md5)
    ensures
        md5_input(hasher) == Seq::<u8>::empty(),
{
    md5::Md5::new()
}

/// `Md5::update`: feeds the hasher more bytes.
#[verifier::external_body]
pub(crate) fn md5_update(hasher: &mut md5::Md5, bytes: &[u8])
    ensures
        md5_input(*final(hasher)) == md5_input(*old(hasher)) + bytes@,
{
    hasher.update(bytes)
}

/// `Md5::finalize`: the checksum of all bytes that the hasher was fed, however they were cut.
#[verifier::external_body]
pub(crate) fn md5_finalize(hasher: md5::Md5) -> (sum: [u8; 16])
    ensures
        sum@ == md5_sum(md5_input(hasher)),
{
    hasher.finalize().into()
}

/// `Sha1::new`: a hasher that was fed nothing.
#[verifier::external_body]
pub(crate) fn sha1_new() -> (hasher: sha1::Sha1)
    ensures
        sha1_input(hasher) == Seq::<u8>::empty(),
{
    sha1::Sha1::new()
}

/// `Sha1::update`: feeds the hasher more bytes.
#[verifier::external_body]
pub(crate) fn sha1_update(hasher: &mut sha1::Sha1, bytes: &[u8])
    ensures
        sha1_input(*final(hasher)) == sha1_input(*old(hasher)) + bytes@,
{
    hasher.update(bytes)
}

/// `Sha1::finalize`: the checksum of all bytes that the hasher was fed, however they were cut.
#[verifier::external_body]
pub(crate) fn sha1_finalize(hasher: sha1::Sha1) -> (sum: [u8; 20])
    ensures
        sum@ == sha1_sum(sha1_input(hasher)),
{
    hasher.finalize().into()
}

/// `Sha256::digest`: the checksum of the bytes.
#[verifier::external_body]
pub(crate) fn sha256_digest(bytes: &[u8]) -> (sum: [u8; 32])
    ensures
        sum@ == sha256_sum(bytes@),
{
    sha2::Sha256::digest(bytes).into()
}

/// `ConstantTimeEq::ct_eq` of the `subtle` crate on byte slices: whether they are equal. That
/// the time it takes does not depend on the bytes is not stated.
#[verifier::external_body]
pub(crate) fn constant_time_eq(a: &[u8], b: &[u8]) -> (r: bool)
    ensures
        r == (a@ == b@),
{
    bool::from(a.ct_eq(b))
}

/// The MD5 checksum of the bytes.
pub fn md5_of(bytes: &[u8]) -> (sum: [u8; 16])
    ensures
        sum@ == md5_sum(bytes@),
{
    let mut hasher = md5_new();
    md5_update(&mut hasher, bytes);
    assert(md5_input(hasher) == bytes@);
    md5_finalize(hasher)
}

} // verus!
