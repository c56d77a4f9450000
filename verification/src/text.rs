//! Text: what the library needs of strings, beyond what `vstd` specifies.

use vstd::prelude::*;
use vstd::string::*;
use vstd::utf8::*;

verus! {

/// The ASCII lower-case form of one character: `A` to `Z` move, all else stays.
pub open spec fn ascii_lower_char(c: char) -> char {
    if 'A' <= c <= 'Z' {
        (c as u32 + 32) as char
    } else {
        c
    }
}

/// The ASCII lower-case form of a text, character by character.
pub open spec fn ascii_lower(text: Seq<char>) -> Seq<char> {
    text.map_values(|c: char| ascii_lower_char(c))
}

/// The characters with Unicode's `White_Space` property.
pub open spec fn is_white_space(c: char) -> bool {
    let code = c as u32;
    ||| 0x09 <= code <= 0x0d
    ||| code == 0x20
    ||| code == 0x85
    ||| code == 0xa0
    ||| code == 0x1680
    ||| 0x2000 <= code <= 0x200a
    ||| code == 0x2028
    ||| code == 0x2029
    ||| code == 0x202f
    ||| code == 0x205f
    ||| code == 0x3000
}

/// A text with nothing in it but white space (the empty text among them).
pub open spec fn is_blank(text: Seq<char>) -> bool {
    forall|i: int| 0 <= i < text.len() ==> is_white_space(#[trigger] text[i])
}

/// `inner` is `text` from `start` to `end`, with white space on both sides of
/// it, and with none at its own two ends.
pub open spec fn trims_to(text: Seq<char>, inner: Seq<char>, start: int, end: int) -> bool {
    &&& 0 <= start <= end <= text.len()
    &&& inner == text.subrange(start, end)
    &&& is_blank(text.subrange(0, start))
    &&& is_blank(text.subrange(end, text.len() as int))
    &&& start < end ==> !is_white_space(text[start]) && !is_white_space(text[end - 1])
}

/// The text that `str::to_lowercase` gives for `text`.
pub uninterp spec fn unicode_lowercase(text: Seq<char>) -> Seq<char>;

/// `lower` is what `str::to_lowercase` gives for `text`, as far as its contract
/// goes.
pub open spec fn lowers_to(text: Seq<char>, lower: Seq<char>) -> bool {
    &&& lower == unicode_lowercase(text)
    &&& is_ascii_chars(text) ==> lower == ascii_lower(text)
    &&& text.len() > 0 ==> lower.len() > 0
}

/// Trusted: `str::to_lowercase` depends on the text alone, lower-cases the
/// ASCII letters of an ASCII text as `str::to_ascii_lowercase` does, and gives
/// one or more characters for each one that there is. What it makes of
/// characters beyond ASCII (Unicode's case mapping) is named, not stated.
pub assume_specification[ str::to_lowercase ](text: &str) -> (lower: String)
    ensures
        lower@ == unicode_lowercase(text@),
        lowers_to(text@, lower@),
;

/// Trusted: `str::trim` takes the white space off both ends of a text, and
/// nothing else.
pub assume_specification[ str::trim ](text: &str) -> (inner: &str)
    ensures
        exists|start: int, end: int| #[trigger] trims_to(text@, inner@, start, end),
;

/// Trusted: `str::eq_ignore_ascii_case` tells whether two texts have the same
/// ASCII lower-case form.
pub assume_specification[ str::eq_ignore_ascii_case ](text: &str, other: &str) -> (same: bool)
    ensures
        same == (ascii_lower(text@) == ascii_lower(other@)),
;

/// Tells whether a text holds nothing but white space.
pub fn blank(text: &str) -> (r: bool)
    ensures
        r == is_blank(text@),
{
    let inner = text.trim();
    proof {
        let (start, end) = choose|start: int, end: int|
            #[trigger] trims_to(text@, inner@, start, end);
        let head = text@.subrange(0, start);
        let tail = text@.subrange(end, text@.len() as int);
        if inner@.len() == 0 {
            assert forall|i: int| 0 <= i < text@.len() implies is_white_space(
                #[trigger] text@[i],
            ) by {
                if i < start {
                    assert(head[i] == text@[i]);
                } else {
                    assert(tail[i - end] == text@[i]);
                }
            }
        }
    }
    inner.is_empty()
}

/// Tells whether two texts are the same.
pub fn same_text(a: &str, b: &str) -> (r: bool)
    ensures
        r == (a@ == b@),
{
    let left = a.as_bytes();
    let right = b.as_bytes();
    proof {
        encode_utf8_decode_utf8(a@);
        encode_utf8_decode_utf8(b@);
    }
    if left.len() != right.len() {
        return false;
    }
    let mut i: usize = 0;
    while i < left.len()
        invariant
            i <= left@.len(),
            left@.len() == right@.len(),
            left@ == encode_utf8(a@),
            right@ == encode_utf8(b@),
            forall|j: int| 0 <= j < i ==> left@[j] == right@[j],
        decreases left@.len() - i,
    {
        if left[i] != right[i] {
            return false;
        }
        i += 1;
    }
    assert(left@ =~= right@);
    true
}

/// Tells whether a text starts with `prefix`.
pub fn has_prefix(text: &str, prefix: &str) -> (r: bool)
    ensures
        r == prefix@.is_prefix_of(text@),
{
    let len: usize = prefix.unicode_len();
    if text.unicode_len() < len {
        return false;
    }
    let head = text.substring_char(0, len);
    same_text(head, prefix)
}

} // verus!
