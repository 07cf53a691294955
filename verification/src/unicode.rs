//! Unicode character properties and case mapping, as std defines them.
use vstd::prelude::*;

verus! {

/// The Unicode `White_Space` property of `c` (`char::is_whitespace`): tab,
/// line feed, vertical tab, form feed, carriage return, space, next line,
/// no-break space, ogham space mark, the spaces U+2000 to U+200A, line and
/// paragraph separators, narrow no-break space, medium mathematical space
/// and ideographic space.
pub open spec fn char_is_whitespace(c: char) -> bool {
    let u = c as u32;
    ||| 0x09 <= u <= 0x0d
    ||| u == 0x20 || u == 0x85 || u == 0xa0 || u == 0x1680
    ||| 0x2000 <= u <= 0x200a
    ||| u == 0x2028 || u == 0x2029 || u == 0x202f || u == 0x205f || u == 0x3000
}

/// The Unicode `Alphabetic` property of `c` (`char::is_alphabetic`).
pub uninterp spec fn char_is_alphabetic(c: char) -> bool;

/// The Unicode lowercase mapping of a whole text (`str::to_lowercase`).
pub uninterp spec fn lowercase(s: Seq<char>) -> Seq<char>;

/// `c` in ASCII lower case.
pub open spec fn ascii_lower(c: char) -> char {
    if 'A' <= c && c <= 'Z' { ((c as u32) + 32) as char } else { c }
}

/// Every character of `s` is ASCII.
pub open spec fn all_ascii(s: Seq<char>) -> bool {
    forall|i: int| 0 <= i < s.len() ==> (s[i] as u32) < 128
}

/// Whether `c` has the Unicode `White_Space` property.
pub fn is_whitespace(c: char) -> (b: bool)
    ensures
        b == char_is_whitespace(c),
{
    let u = c as u32;
    (0x09 <= u && u <= 0x0d) || u == 0x20 || u == 0x85 || u == 0xa0 || u == 0x1680
        || (0x2000 <= u && u <= 0x200a) || u == 0x2028 || u == 0x2029 || u == 0x202f || u == 0x205f
        || u == 0x3000
}

/// `c` is an ASCII letter.
pub open spec fn ascii_alpha(c: char) -> bool {
    ('A' <= c && c <= 'Z') || ('a' <= c && c <= 'z')
}

/// `char::is_alphabetic`: whether `c` has the Unicode `Alphabetic` property.
/// Claimed of std: the answer depends on `c` alone, and among ASCII
/// characters exactly the letters have the property.
#[verifier::external_body]
pub(crate) fn is_alphabetic(c: char) -> (b: bool)
    ensures
        b == char_is_alphabetic(c),
        (c as u32) < 128 ==> b == ascii_alpha(c),
{
    c.is_alphabetic()
}

/// `str::to_lowercase`: the Unicode lowercase mapping of `s`. Claimed of
/// std: the result depends on the text of `s` alone, and an ASCII text maps
/// `A`..`Z` to `a`..`z` and keeps every other character (the Unicode
/// lowercase mapping of the ASCII range).
#[verifier::external_body]
pub(crate) fn to_lowercase(s: &str) -> (r: String)
    ensures
        r@ == lowercase(s@),
        all_ascii(s@) ==> r@ == s@.map_values(|c: char| ascii_lower(c)),
{
    s.to_lowercase()
}

} // verus!
