//! Content hashes as a wheel's `RECORD` writes them.

use vstd::prelude::*;
use base64::Engine;
use sha2::Digest;

verus! {

/// The SHA-256 digest of `data`, as `sha2` computes it.
pub uninterp spec fn sha256(data: Seq<u8>) -> Seq<u8>;

/// `bytes` in base64 with the URL-safe alphabet and without padding, as
/// `base64` encodes it.
pub uninterp spec fn base64_url_no_pad(bytes: Seq<u8>) -> Seq<char>;

/// The hash that stands for `data` in a `RECORD` line.
pub open spec fn content_hash(data: Seq<u8>) -> Seq<char> {
    base64_url_no_pad(sha256(data))
}

/// Whether `c` is of the URL-safe base64 alphabet: a letter, a digit, `-`
/// or `_`.
pub open spec fn is_url_safe_char(c: char) -> bool {
    ||| 'A' <= c <= 'Z'
    ||| 'a' <= c <= 'z'
    ||| '0' <= c <= '9'
    ||| c == '-'
    ||| c == '_'
}

/// Whether `text` has the form of an encoded digest: 43 characters of the
/// URL-safe alphabet, which is what 32 bytes come to without padding.
pub open spec fn is_encoded_digest(text: Seq<char>) -> bool {
    &&& text.len() == 43
    &&& forall|i: int| 0 <= i < text.len() ==> is_url_safe_char(#[trigger] text[i])
}

/// Calls `sha2::Sha256::digest`. Trusted: the 32 bytes it returns are the
/// SHA-256 digest of `data`, which depends on `data` alone.
#[verifier::external_body]
fn sha256_digest(data: &[u8]) -> (digest: [u8; 32])
    ensures
        digest@ == sha256(data@),
{
    sha2::Sha256::digest(data).into()
}

/// Calls `encode` of `base64::engine::general_purpose::URL_SAFE_NO_PAD`.
/// Trusted: the text it returns is the unpadded URL-safe base64 encoding
/// of `digest`, which depends on `digest` alone, and has 43 characters of
/// the URL-safe alphabet.
#[verifier::external_body]
fn encode_digest(digest: &[u8; 32]) -> (text: String)
    ensures
        text@ == base64_url_no_pad(digest@),
        is_encoded_digest(text@),
{
    base64::engine::general_purpose::URL_SAFE_NO_PAD.encode(digest)
}

/// Computes the hash that stands for `data` in a `RECORD` line.
pub fn content_hash_string(data: &[u8]) -> (hash: String)
    ensures
        hash@ == content_hash(data@),
        is_encoded_digest(hash@),
{
    let digest = sha256_digest(data);
    encode_digest(&digest)
}

} // verus!
