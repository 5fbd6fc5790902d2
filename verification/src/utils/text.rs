//! Text built from ASCII bytes, and the character classes the crate cares about.

use vstd::prelude::*;
use vstd::string::StringSliceAdditionalSpecFns;
use vstd::utf8::encode_utf8_decode_utf8;

verus! {

/// The text that a sequence of ASCII bytes spells: one character per byte.
pub open spec fn ascii_text(bytes: Seq<u8>) -> Seq<char> {
    Seq::new(bytes.len(), |i: int| bytes[i] as char)
}

/// `0-9`, `A-Z` or `a-z`, as a byte.
pub open spec fn is_alphanumeric_byte(b: u8) -> bool {
    (0x30 <= b <= 0x39) || (0x41 <= b <= 0x5a) || (0x61 <= b <= 0x7a)
}

/// `0-9`, `A-Z` or `a-z`, as a character.
pub open spec fn is_alphanumeric_char(c: char) -> bool {
    (0x30 <= c as u32 <= 0x39) || (0x41 <= c as u32 <= 0x5a) || (0x61 <= c as u32 <= 0x7a)
}

/// Every character of `text` is an ASCII letter or digit.
pub open spec fn all_alphanumeric(text: Seq<char>) -> bool {
    forall|i: int| 0 <= i < text.len() ==> is_alphanumeric_char(#[trigger] text[i])
}

/// `String::push` of the standard library: the text grows by exactly the
/// character given, at its end.
#[verifier::external_body]
pub(crate) fn string_push(text: &mut String, c: char)
    ensures
        final(text)@ == old(text)@.push(c),
{
    text.push(c)
}

/// Spells out the ASCII bytes `bytes[start..end]` as a `String`.
pub fn ascii_string(bytes: &[u8], start: usize, end: usize) -> (text: String)
    requires
        start <= end <= bytes@.len(),
        forall|i: int| start <= i < end ==> bytes@[i] < 128,
    ensures
        text@ == ascii_text(bytes@.subrange(start as int, end as int)),
{
    let mut text = String::new();
    let mut at: usize = start;
    while at < end
        invariant
            start <= at <= end <= bytes@.len(),
            forall|i: int| start <= i < end ==> bytes@[i] < 128,
            text@ == ascii_text(bytes@.subrange(start as int, at as int)),
        decreases end - at,
    {
        let c: char = bytes[at] as char;
        string_push(&mut text, c);
        at = at + 1;
        assert(text@ =~= ascii_text(bytes@.subrange(start as int, at as int)));
    }
    text
}

/// Whether two texts are the same, character by character.
pub fn str_equals(left: &str, right: &str) -> (same: bool)
    ensures
        same == (left@ == right@),
{
    let left_bytes = left.as_bytes();
    let right_bytes = right.as_bytes();
    proof {
        encode_utf8_decode_utf8(left@);
        encode_utf8_decode_utf8(right@);
    }
    if left_bytes.len() != right_bytes.len() {
        return false;
    }
    let mut at: usize = 0;
    while at < left_bytes.len()
        invariant
            at <= left_bytes@.len(),
            left_bytes@.len() == right_bytes@.len(),
            forall|i: int| 0 <= i < at ==> left_bytes@[i] == right_bytes@[i],
            left_bytes@ == left.spec_bytes(),
            right_bytes@ == right.spec_bytes(),
        decreases left_bytes@.len() - at,
    {
        if left_bytes[at] != right_bytes[at] {
            return false;
        }
        at = at + 1;
    }
    assert(left_bytes@ =~= right_bytes@);
    true
}

} // verus!
