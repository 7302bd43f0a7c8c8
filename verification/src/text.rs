//! Comparing and folding text.

use vstd::prelude::*;

verus! {

/// `b` with an upper case letter of ASCII turned into lower case.
pub open spec fn ascii_lower(b: u8) -> u8 {
    if 0x41 <= b && b <= 0x5a {
        (b + 0x20) as u8
    } else {
        b
    }
}

/// Whether `word` contains no upper case letter of ASCII.
pub open spec fn is_lower_word(word: Seq<u8>) -> bool {
    forall|k: int| 0 <= k < word.len() ==> !(0x41 <= #[trigger] word[k] && word[k] <= 0x5a)
}

/// The lower case form of a text, as `str::to_lowercase` gives it.
pub uninterp spec fn lowercase(text: Seq<char>) -> Seq<char>;

/// `c` with an upper case letter of ASCII turned into lower case.
pub open spec fn ascii_lower_char(c: char) -> char {
    if 'A' <= c && c <= 'Z' {
        ((c as u8) + 0x20) as char
    } else {
        c
    }
}

/// Whether every character of `text` is one of ASCII.
pub open spec fn is_ascii_text(text: Seq<char>) -> bool {
    forall|i: int| 0 <= i < text.len() ==> (#[trigger] text[i] as u32) < 0x80
}

/// `str::to_lowercase`: the lower case form of `text` by the rules of
/// Unicode. Of a text of ASCII it is known letter by letter: `A` to `Z`
/// become `a` to `z` and nothing else changes.
#[verifier::external_body]
pub(crate) fn to_lowercase(text: &str) -> (lower: String)
    ensures
        lower@ == lowercase(text@),
        is_ascii_text(text@) ==> lower@ == text@.map_values(|c: char| ascii_lower_char(c)),
{
    text.to_lowercase()
}

/// `==` on `str`: whether two texts hold the same characters.
#[verifier::external_body]
pub(crate) fn same_text(left: &str, right: &str) -> (same: bool)
    ensures
        same == (left@ == right@),
{
    left == right
}

} // verus!
