//! Proof keys for code exchange: the verifier and its challenge.

use crate::base64url::{base64url, encode, encoded_len, is_symbol, lemma_base64url_shape};
use vstd::prelude::*;

verus! {

/// Whether a character is one of the unreserved characters of a URI: a letter,
/// a digit, `-`, `.`, `_` or `~`.
pub open spec fn is_unreserved(c: char) -> bool {
    is_symbol(c) || c == '.' || c == '~'
}

/// Whether a text can serve as a code verifier: 43 to 128 unreserved
/// characters.
pub open spec fn valid_code_verifier(verifier: Seq<char>) -> bool {
    &&& 43 <= verifier.len() <= 128
    &&& forall|i: int| 0 <= i < verifier.len() ==> is_unreserved(#[trigger] verifier[i])
}

/// The SHA-256 digest of a sequence of bytes, as the `sha2` crate computes it.
pub uninterp spec fn sha256_digest(data: Seq<u8>) -> Seq<u8>;

/// The challenge that belongs to a verifier: the digest of the verifier's
/// bytes, in URL-safe base64 without padding.
pub open spec fn challenge_of(verifier: Seq<char>) -> Seq<char> {
    base64url(sha256_digest(vstd::utf8::encode_utf8(verifier)))
}

/// Calls `sha2::Sha256::digest`. The contract names the digest and claims that
/// it has 32 bytes, the output size of SHA-256.
#[verifier::external_body]
fn sha256(data: &[u8]) -> (digest: Vec<u8>)
    ensures
        digest@ == sha256_digest(data@),
        digest@.len() == 32,
{
    <sha2::Sha256 as sha2::Digest>::digest(data).to_vec()
}

/// Calls `fill_bytes` of `rand::rngs::OsRng`, which overwrites the buffer with
/// bytes from the operating system's random source, and ends the process
/// where the system gives none. The contract claims only that the buffer
/// keeps its length.
#[verifier::external_body]
fn fill_random(buffer: &mut Vec<u8>)
    ensures
        final(buffer)@.len() == old(buffer)@.len(),
{
    rand::RngCore::fill_bytes(&mut rand::rngs::OsRng, buffer.as_mut_slice());
}

/// The verifier made from random bytes: their URL-safe base64 encoding,
/// which is a valid verifier, of 43 to 128 characters, where the bytes are 32
/// to 96.
pub fn code_verifier_from(entropy: &[u8]) -> (verifier: String)
    ensures
        verifier@ == base64url(entropy@),
        verifier@.len() == encoded_len(entropy@.len()),
        32 <= entropy@.len() <= 96 ==> valid_code_verifier(verifier@),
{
    proof {
        lemma_base64url_shape(entropy@);
    }
    encode(entropy)
}

/// A fresh code verifier: 32 bytes from the operating system's random
/// source, in URL-safe base64. Without such a source the process cannot go
/// on, and ends.
pub fn generate_code_verifier() -> (verifier: String)
    ensures
        valid_code_verifier(verifier@),
        verifier@.len() == 43,
{
    let mut entropy: Vec<u8> = vec![0u8; 32];
    fill_random(&mut entropy);
    code_verifier_from(entropy.as_slice())
}

/// The challenge of a verifier.
pub fn generate_code_challenge(code_verifier: &str) -> (challenge: String)
    ensures
        challenge@ == challenge_of(code_verifier@),
        challenge@.len() == 43,
        forall|i: int| 0 <= i < challenge@.len() ==> is_unreserved(#[trigger] challenge@[i]),
        !challenge@.contains('='),
{
    let digest = sha256(code_verifier.as_bytes());
    proof {
        lemma_base64url_shape(digest@);
    }
    encode(digest.as_slice())
}

} // verus!
