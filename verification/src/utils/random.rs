//! Random alphanumeric text from a cryptographically seeded generator.

use rand::distributions::Alphanumeric;
use rand::rngs::{OsRng, StdRng};
use rand::{Rng, SeedableRng};
use vstd::prelude::*;

use super::text::{all_alphanumeric, is_alphanumeric_byte, is_alphanumeric_char, string_push};

verus! {

/// The standard generator of the `rand` crate. Nothing looks into it.
#[verifier::external_type_specification]
#[verifier::external_body]
pub struct ExStdRng(StdRng);

/// `StdRng::from_rng(OsRng)`: a generator seeded from the operating system,
/// or `None` where the system hands out no entropy. Nothing is claimed of
/// the generator.
#[verifier::external_body]
pub(crate) fn seeded_rng() -> Option<StdRng> {
    StdRng::from_rng(OsRng).ok()
}

/// `Rng::sample` with the `Alphanumeric` distribution, which draws one byte
/// out of `A-Z`, `a-z` and `0-9`. Which byte comes out is left open.
#[verifier::external_body]
pub(crate) fn sample_alphanumeric(rng: &mut StdRng) -> (b: u8)
    ensures
        is_alphanumeric_byte(b),
{
    rng.sample(Alphanumeric)
}

/// Draws `length` letters and digits from `rng`.
pub fn random_alphanumeric(rng: &mut StdRng, length: usize) -> (text: String)
    ensures
        text@.len() == length,
        all_alphanumeric(text@),
{
    let mut text = String::new();
    let mut drawn: usize = 0;
    while drawn < length
        invariant
            drawn <= length,
            text@.len() == drawn,
            all_alphanumeric(text@),
        decreases length - drawn,
    {
        let b: u8 = sample_alphanumeric(rng);
        let c: char = b as char;
        assert(is_alphanumeric_char(c));
        string_push(&mut text, c);
        drawn = drawn + 1;
    }
    text
}

} // verus!
