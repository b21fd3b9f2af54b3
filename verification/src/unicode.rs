//! Unicode case mapping, taken from the standard library and trusted.
use vstd::prelude::*;

verus! {

/// What `str::to_lowercase` gives for `s`.
pub uninterp spec fn lowercase(s: Seq<char>) -> Seq<char>;

/// What `str::to_uppercase` gives for `s`.
pub uninterp spec fn uppercase(s: Seq<char>) -> Seq<char>;

/// Every character of `s` is an ASCII lower-case letter, digit or space.
pub open spec fn is_ascii_lower(s: Seq<char>) -> bool {
    forall|i: int|
        0 <= i < s.len() ==> ('a' <= #[trigger] s[i] <= 'z') || ('0' <= s[i] <= '9') || s[i] == ' '
}

/// Every character of `s` is ASCII.
pub open spec fn is_ascii_text(s: Seq<char>) -> bool {
    forall|i: int| 0 <= i < s.len() ==> (#[trigger] s[i] as int) < 128
}

/// The lower-case mapping of an ASCII character: `A`..`Z` become `a`..`z`.
pub open spec fn ascii_to_lower(c: char) -> char {
    if 'A' <= c <= 'Z' {
        ((c as int) + 32) as char
    } else {
        c
    }
}

/// The lower-case form of `s` as `str::to_lowercase` gives it, spelled out
/// for ASCII text (`A`..`Z` to `a`..`z`, the rest unchanged) and the named
/// `lowercase` otherwise.
pub open spec fn lower_text(s: Seq<char>) -> Seq<char> {
    if is_ascii_text(s) {
        s.map_values(|c: char| ascii_to_lower(c))
    } else {
        lowercase(s)
    }
}

/// Calls `str::to_lowercase`. Claimed: the result is the named `lowercase` of
/// the text, and depends on nothing else; an ASCII text is mapped character
/// by character, `A`..`Z` to `a`..`z` and every other character to itself
/// (the Unicode lower-case mapping of each ASCII character).
#[verifier::external_body]
pub(crate) fn to_lowercase(s: &str) -> (r: String)
    ensures
        r@ == lowercase(s@),
        is_ascii_lower(s@) ==> r@ == s@,
        is_ascii_text(s@) ==> r@ == s@.map_values(|c: char| ascii_to_lower(c)),
{
    s.to_lowercase()
}

/// Calls `str::to_uppercase`. Claimed: the result is the named `uppercase` of
/// the text, and depends on nothing else.
#[verifier::external_body]
pub(crate) fn to_uppercase(s: &str) -> (r: String)
    ensures
        r@ == uppercase(s@),
{
    s.to_uppercase()
}

} // verus!
