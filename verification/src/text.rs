//! Text as the string functions of `std` treat it: trimming, lower case
//! and search.

use vstd::prelude::*;

verus! {

/// Whether a character has the Unicode property White_Space.
pub open spec fn is_white_space(c: char) -> bool {
    let code = c as u32;
    ||| 0x09 <= code <= 0x0D
    ||| code == 0x20
    ||| code == 0x85
    ||| code == 0xA0
    ||| code == 0x1680
    ||| 0x2000 <= code <= 0x200A
    ||| code == 0x2028
    ||| code == 0x2029
    ||| code == 0x202F
    ||| code == 0x205F
    ||| code == 0x3000
}

/// The text without the characters at its start that `strip` holds of.
pub open spec fn without_leading(s: Seq<char>, strip: spec_fn(char) -> bool) -> Seq<char>
    decreases s.len(),
{
    if s.len() > 0 && strip(s.first()) {
        without_leading(s.drop_first(), strip)
    } else {
        s
    }
}

/// The text without the characters at its end that `strip` holds of.
pub open spec fn without_trailing(s: Seq<char>, strip: spec_fn(char) -> bool) -> Seq<char>
    decreases s.len(),
{
    if s.len() > 0 && strip(s.last()) {
        without_trailing(s.drop_last(), strip)
    } else {
        s
    }
}

/// The text without white space at either end.
pub open spec fn trimmed(s: Seq<char>) -> Seq<char> {
    without_trailing(without_leading(s, |c: char| is_white_space(c)), |c: char| is_white_space(c))
}

/// The text without the slashes at its end.
pub open spec fn without_trailing_slashes(s: Seq<char>) -> Seq<char> {
    without_trailing(s, |c: char| c == '/')
}

/// Stripping at the end leaves a text that does not end in a stripped
/// character and is no longer than the text it was taken from.
pub proof fn lemma_without_trailing(s: Seq<char>, strip: spec_fn(char) -> bool)
    ensures
        without_trailing(s, strip).len() <= s.len(),
        without_trailing(s, strip).len() > 0 ==> !strip(without_trailing(s, strip).last()),
    decreases s.len(),
{
    if s.len() > 0 && strip(s.last()) {
        lemma_without_trailing(s.drop_last(), strip);
    }
}

/// `str::trim`: the slice of `s` that is left when the white space at both
/// ends, as Unicode's property White_Space defines it, is taken away.
#[verifier::external_body]
pub(crate) fn trim(s: &str) -> (r: &str)
    ensures
        r@ == trimmed(s@),
{
    s.trim()
}

/// `str::trim_end_matches` with the pattern `'/'`: the slice of `s` that is
/// left when every slash at its end is taken away.
#[verifier::external_body]
pub(crate) fn trim_trailing_slashes(s: &str) -> (r: &str)
    ensures
        r@ == without_trailing_slashes(s@),
{
    s.trim_end_matches('/')
}

/// A character in lower case where it is a capital letter of ASCII, and the
/// character itself where it is not.
pub open spec fn ascii_lower(c: char) -> char {
    if 'A' <= c <= 'Z' {
        ((c as u8) + 32) as char
    } else {
        c
    }
}

/// The text with its capital letters of ASCII in lower case.
pub open spec fn ascii_lowercase(s: Seq<char>) -> Seq<char> {
    Seq::new(s.len(), |i: int| ascii_lower(s[i]))
}

/// Whether `part` occurs in `s` as a run of characters.
pub open spec fn occurs_in(part: Seq<char>, s: Seq<char>) -> bool {
    exists|at: int|
        0 <= at <= s.len() - part.len() && #[trigger] s.subrange(at, at + part.len()) == part
}

/// `str::to_ascii_lowercase`: a copy of `s` in which each capital letter of
/// ASCII is replaced by its lower case, and nothing else is changed.
#[verifier::external_body]
pub(crate) fn to_ascii_lowercase(s: &str) -> (r: String)
    ensures
        r@ == ascii_lowercase(s@),
{
    s.to_ascii_lowercase()
}

/// `str::contains` with a string slice for the pattern: whether the pattern
/// occurs in `s`.
#[verifier::external_body]
pub(crate) fn contains(s: &str, part: &str) -> (r: bool)
    ensures
        r == occurs_in(part@, s@),
{
    s.contains(part)
}

} // verus!
