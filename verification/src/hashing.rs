//! SHA-256 over bytes that arrive in pieces.
use crate::text::{hex_lower, hex_text};
use vstd::prelude::*;

verus! {

/// The running hash of the `sha2` crate.
#[verifier::external_type_specification]
#[verifier::external_body]
pub struct ExSha256(sha2::Sha256);

/// The bytes that a running hash has taken in.
pub uninterp spec fn hashed_bytes(hasher: sha2::Sha256) -> Seq<u8>;

/// The SHA-256 digest of bytes, as `sha2::Sha256` computes it.
pub uninterp spec fn sha256_digest(bytes: Seq<u8>) -> Seq<u8>;

/// `sha2::Sha256::new`: a hash that has taken in nothing.
#[verifier::external_body]
pub(crate) fn new_hasher() -> (r: sha2::Sha256)
    ensures
        hashed_bytes(r) == Seq::<u8>::empty(),
{
    <sha2::Sha256 as sha2::Digest>::new()
}

/// `sha2::Digest::update`: takes in more bytes behind those it has.
#[verifier::external_body]
pub(crate) fn absorb(hasher: &mut sha2::Sha256, data: &[u8])
    ensures
        hashed_bytes(*final(hasher)) == hashed_bytes(*old(hasher)) + data@,
{
    sha2::Digest::update(hasher, data);
}

/// `sha2::Digest::finalize`: the digest of all bytes taken in, which has 32 bytes.
/// The digest is named by [`sha256_digest`]; the compression function is not stated.
#[verifier::external_body]
pub(crate) fn finish(hasher: sha2::Sha256) -> (r: Vec<u8>)
    ensures
        r@ == sha256_digest(hashed_bytes(hasher)),
        r@.len() == 32,
{
    sha2::Digest::finalize(hasher).to_vec()
}

/// The digest as it is written down: lower-case hexadecimal digits.
pub open spec fn sha256_text(bytes: Seq<u8>) -> Seq<char> {
    hex_text(sha256_digest(bytes))
}

/// The text of a digest.
pub fn finish_text(hasher: sha2::Sha256) -> (r: String)
    ensures
        r@ == sha256_text(hashed_bytes(hasher)),
        r@.len() == 64,
{
    let digest = finish(hasher);
    proof {
        crate::text::lemma_hex_text_len(digest@);
    }
    hex_lower(digest.as_slice())
}

/// The digest text of bytes at hand.
pub fn sha256_hex(bytes: &[u8]) -> (r: String)
    ensures
        r@ == sha256_text(bytes@),
        r@.len() == 64,
{
    let mut hasher = new_hasher();
    absorb(&mut hasher, bytes);
    assert(hashed_bytes(hasher) =~= bytes@);
    finish_text(hasher)
}

} // verus!
