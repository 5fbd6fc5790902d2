//! The plaintext of a new API token.

use vstd::prelude::*;

use super::random::{random_alphanumeric, seeded_rng};
use super::text::all_alphanumeric;

verus! {

/// Number of characters in an API token.
pub const TOKEN_LENGTH: usize = 32;

/// The shape of a generated token: 32 ASCII letters or digits.
pub open spec fn is_token(token: Seq<char>) -> bool {
    token.len() == TOKEN_LENGTH && all_alphanumeric(token)
}

/// A fresh random token, or `None` where the operating system hands out no
/// entropy.
pub fn generate_token() -> (token: Option<String>)
    ensures
        token matches Some(text) ==> is_token(text@),
{
    match seeded_rng() {
        Some(mut rng) => Some(random_alphanumeric(&mut rng, TOKEN_LENGTH)),
        None => None,
    }
}

} // verus!
