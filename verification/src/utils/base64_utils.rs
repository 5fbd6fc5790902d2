//! Base64 in the standard alphabet, with padding.

use base64::engine::general_purpose::STANDARD;
use base64::Engine;
use vstd::prelude::*;

verus! {

/// The standard, padded base64 text of a byte string, as the `base64` crate
/// computes it.
pub uninterp spec fn base64_standard(input: Seq<u8>) -> Seq<char>;

/// `Engine::encode` on the `STANDARD` engine. The result is a function of the
/// input bytes alone. The bound keeps the encoded length, four characters
/// for every three bytes begun, inside `usize`, short of which the crate
/// gives up.
#[verifier::external_body]
fn standard_encode(input: &[u8]) -> (text: String)
    requires
        input@.len() <= isize::MAX,
    ensures
        text@ == base64_standard(input@),
{
    STANDARD.encode(input)
}

/// The base64 text of `input`.
pub fn encode(input: &[u8]) -> (text: String)
    requires
        input@.len() <= isize::MAX,
    ensures
        text@ == base64_standard(input@),
{
    standard_encode(input)
}

} // verus!
