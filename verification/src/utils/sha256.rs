//! The fast hash under which API tokens are stored and looked up.

use sha2::{Digest, Sha256};
use vstd::prelude::*;
use vstd::string::StringSliceAdditionalSpecFns;

use super::base64_utils::{base64_standard, encode};

verus! {

/// The SHA-256 digest of a byte string, as the `sha2` crate computes it.
pub uninterp spec fn sha256_digest(input: Seq<u8>) -> Seq<u8>;

/// `Sha256::digest`: the digest is a function of the input bytes alone and
/// is 32 bytes long.
#[verifier::external_body]
fn digest(input: &[u8]) -> (digest: Vec<u8>)
    ensures
        digest@ == sha256_digest(input@),
        digest@.len() == 32,
{
    Sha256::digest(input).to_vec()
}

/// The hash text of a byte string: its SHA-256 digest in base64.
pub open spec fn hash_text(input: Seq<u8>) -> Seq<char> {
    base64_standard(sha256_digest(input))
}

/// The hash text of a token: that of its UTF-8 bytes.
pub open spec fn token_hash(token: Seq<char>) -> Seq<char> {
    hash_text(vstd::utf8::encode_utf8(token))
}

/// Hashes `input` and spells the digest in base64.
pub fn encode_to_string(input: &[u8]) -> (text: String)
    ensures
        text@ == hash_text(input@),
{
    let digest = digest(input);
    encode(digest.as_slice())
}

/// Hashes the text of a token and spells the digest in base64.
pub fn hash_token(token: &str) -> (text: String)
    ensures
        text@ == token_hash(token@),
{
    encode_to_string(token.as_bytes())
}

} // verus!
