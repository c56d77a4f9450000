//! Letters: what counts as the same text, and what counts as blank.

use crate::config::{canonical, UsernameCase};
use crate::text::{ascii_lower, ascii_lower_char, is_blank, is_white_space, unicode_lowercase};
use vstd::prelude::*;

verus! {

/// Two characters are the same but for ASCII case.
pub open spec fn same_letter(a: char, b: char) -> bool {
    ||| a == b
    ||| 'A' <= a <= 'Z' && b as u32 == a as u32 + 32
    ||| 'A' <= b <= 'Z' && a as u32 == b as u32 + 32
}

/// Two texts are the same but for ASCII case.
pub open spec fn same_letters(a: Seq<char>, b: Seq<char>) -> bool {
    &&& a.len() == b.len()
    &&& forall|i: int| 0 <= i < a.len() ==> #[trigger] same_letter(a[i], b[i])
}

/// Texts have one ASCII lower-case form exactly if they are the same but for
/// ASCII case.
pub proof fn ascii_case_alone_is_folded(a: Seq<char>, b: Seq<char>)
    ensures
        ascii_lower(a) == ascii_lower(b) <==> same_letters(a, b),
{
    assert forall|c: char, d: char| #[trigger] ascii_lower_char(c) == #[trigger] ascii_lower_char(d)
        <==> same_letter(c, d) by {}
    if ascii_lower(a) == ascii_lower(b) {
        assert(ascii_lower(a).len() == a.len());
        assert(ascii_lower(b).len() == b.len());
        assert forall|i: int| 0 <= i < a.len() implies #[trigger] same_letter(a[i], b[i]) by {
            assert(ascii_lower(a)[i] == ascii_lower_char(a[i]));
            assert(ascii_lower(b)[i] == ascii_lower_char(b[i]));
        }
    }
    if same_letters(a, b) {
        assert forall|i: int| 0 <= i < a.len() implies ascii_lower(a)[i] == ascii_lower(b)[i] by {
            assert(same_letter(a[i], b[i]));
            assert(ascii_lower_char(a[i]) == ascii_lower_char(b[i]));
        }
        assert(ascii_lower(a) =~= ascii_lower(b));
    }
}

/// The ASCII lower-case form of a text has the text's own letters, and none of
/// them is an ASCII capital.
pub proof fn lower_case_has_no_capitals(text: Seq<char>)
    ensures
        same_letters(ascii_lower(text), text),
        forall|i: int| 0 <= i < text.len() ==> !('A' <= #[trigger] ascii_lower(text)[i] <= 'Z'),
{
    assert forall|i: int| 0 <= i < text.len() implies #[trigger] same_letter(
        ascii_lower(text)[i],
        text[i],
    ) by {
        assert(ascii_lower(text)[i] == ascii_lower_char(text[i]));
    }
}

/// A tab, a line break, a space, or another character that Unicode counts as
/// white space.
pub open spec fn white(c: char) -> bool {
    ||| '\t' <= c <= '\r'
    ||| c == ' '
    ||| c == '\u{85}'
    ||| c == '\u{a0}'
    ||| c == '\u{1680}'
    ||| '\u{2000}' <= c <= '\u{200a}'
    ||| c == '\u{2028}'
    ||| c == '\u{2029}'
    ||| c == '\u{202f}'
    ||| c == '\u{205f}'
    ||| c == '\u{3000}'
}

/// White space is what Unicode counts as such.
pub proof fn white_space_is_white(c: char)
    ensures
        is_white_space(c) <==> white(c),
{
}

/// A text without a character that is not white space.
pub open spec fn all_white(text: Seq<char>) -> bool {
    forall|i: int| 0 <= i < text.len() ==> white(#[trigger] text[i])
}

/// A text is blank exactly if no character of it is anything but white space.
pub proof fn blank_is_all_white(text: Seq<char>)
    ensures
        is_blank(text) <==> all_white(text),
{
    if is_blank(text) {
        assert forall|i: int| 0 <= i < text.len() implies white(#[trigger] text[i]) by {
            white_space_is_white(text[i]);
        }
    }
    if all_white(text) {
        assert forall|i: int| 0 <= i < text.len() implies is_white_space(#[trigger] text[i]) by {
            white_space_is_white(text[i]);
        }
    }
}

/// The name that a user goes by: the username itself where case is kept, its
/// Unicode lower-case form where case is folded.
pub open spec fn goes_by(case: UsernameCase, username: Seq<char>, name: Seq<char>) -> bool {
    &&& case == UsernameCase::Sensitive ==> name == username
    &&& case == UsernameCase::Insensitive ==> name == unicode_lowercase(username)
}

/// Two usernames are one: equal where case is kept, with one Unicode lower-case
/// form where case is folded.
pub open spec fn same_username(case: UsernameCase, one: Seq<char>, other: Seq<char>) -> bool {
    &&& case == UsernameCase::Sensitive ==> one == other
    &&& case == UsernameCase::Insensitive ==> unicode_lowercase(one) == unicode_lowercase(other)
}

/// The canonical form of a username is the name that its user goes by, so that
/// usernames share it exactly if they are one.
pub proof fn canonical_name_is_the_username(case: UsernameCase, one: Seq<char>, other: Seq<char>)
    ensures
        goes_by(case, one, canonical(case, one)),
        canonical(case, one) == canonical(case, other) <==> same_username(case, one, other),
{
}

} // verus!
