//! Header fields, and the credential that they show.

use crate::credential::{
    base64_decoded, behind_basic, credential_parts, cut_at_colon, header_value, presented,
};
use crate::laws::letters::{ascii_case_alone_is_folded, same_letters};
use crate::laws::presents;
use vstd::prelude::*;
use vstd::utf8::*;

verus! {

/// The field at `k` is the first one named `target`, in any ASCII case.
pub open spec fn first_named(
    fields: Seq<(Seq<char>, Seq<char>)>,
    target: Seq<char>,
    k: int,
) -> bool {
    &&& 0 <= k < fields.len()
    &&& same_letters(fields[k].0, target)
    &&& forall|j: int| 0 <= j < k ==> !same_letters((#[trigger] fields[j]).0, target)
}

/// No field is named `target`, in any ASCII case.
pub open spec fn none_named(fields: Seq<(Seq<char>, Seq<char>)>, target: Seq<char>) -> bool {
    forall|j: int| 0 <= j < fields.len() ==> !same_letters((#[trigger] fields[j]).0, target)
}

/// The value under a name is that of the first field so named, wherever it
/// stands and whatever stands before or behind it; there is none exactly if no
/// field is so named.
pub proof fn first_field_is_found(
    fields: Seq<(Seq<char>, Seq<char>)>,
    target: Seq<char>,
    k: int,
)
    ensures
        first_named(fields, target, k) ==> header_value(fields, target) == Some(fields[k].1),
        header_value(fields, target) is None <==> none_named(fields, target),
    decreases fields.len(),
{
    if fields.len() > 0 {
        let rest = fields.drop_first();
        ascii_case_alone_is_folded(fields[0].0, target);
        first_field_is_found(rest, target, k - 1);
        assert forall|j: int| 0 <= j < rest.len() implies #[trigger] rest[j] == fields[j + 1] by {}
        if !same_letters(fields[0].0, target) {
            if first_named(fields, target, k) {
                assert forall|j: int| 0 <= j < k - 1 implies !same_letters(
                    (#[trigger] rest[j]).0,
                    target,
                ) by {
                    assert(!same_letters(fields[j + 1].0, target));
                }
                assert(first_named(rest, target, k - 1));
            }
            if none_named(rest, target) {
                assert forall|j: int| 0 <= j < fields.len() implies !same_letters(
                    (#[trigger] fields[j]).0,
                    target,
                ) by {
                    if j > 0 {
                        assert(!same_letters(rest[j - 1].0, target));
                    }
                }
            }
            if none_named(fields, target) {
                assert forall|j: int| 0 <= j < rest.len() implies !same_letters(
                    (#[trigger] rest[j]).0,
                    target,
                ) by {
                    assert(!same_letters(fields[j + 1].0, target));
                }
            }
        }
    }
}

/// Where a field is named `target`, there is a first one.
pub(crate) proof fn some_field_is_first(
    fields: Seq<(Seq<char>, Seq<char>)>,
    target: Seq<char>,
    n: int,
)
    requires
        0 <= n <= fields.len(),
        exists|j: int| 0 <= j < n && same_letters((#[trigger] fields[j]).0, target),
    ensures
        exists|k: int| first_named(fields, target, k),
    decreases n,
{
    let j = choose|j: int| 0 <= j < n && same_letters((#[trigger] fields[j]).0, target);
    if exists|i: int| 0 <= i < j && same_letters((#[trigger] fields[i]).0, target) {
        some_field_is_first(fields, target, j);
    } else {
        assert(first_named(fields, target, j));
    }
}

/// What follows the scheme `Basic`, in any ASCII case, and one space is what is
/// taken off a value, to its last character.
pub proof fn scheme_is_taken_off(scheme: Seq<char>, rest: Seq<char>)
    requires
        same_letters(scheme, "Basic"@),
    ensures
        behind_basic(scheme + seq![' '] + rest) == Some(rest),
{
    let value = scheme + seq![' '] + rest;
    reveal_strlit("Basic");
    ascii_case_alone_is_folded(scheme, "Basic"@);
    assert(value.take(5) =~= scheme);
    assert(value.skip(6) =~= rest);
}

/// Nothing is taken off a value that is not the scheme `Basic`, in any ASCII
/// case, one space, and the rest.
pub proof fn only_the_scheme_is_taken_off(value: Seq<char>)
    ensures
        behind_basic(value) matches Some(rest) ==> exists|scheme: Seq<char>|
            #[trigger] same_letters(scheme, "Basic"@) && value == scheme + seq![' '] + rest,
{
    reveal_strlit("Basic");
    if behind_basic(value) is Some {
        let scheme = value.take(5);
        let rest = behind_basic(value)->0;
        ascii_case_alone_is_folded(scheme, "Basic"@);
        assert(value =~= scheme + seq![' '] + rest);
        assert(same_letters(scheme, "Basic"@));
    }
}

/// A value holds a Basic credential: the scheme, in any ASCII case, one space,
/// and the credential, which is not empty.
pub open spec fn holds_credential(value: Seq<char>, credential: Seq<char>) -> bool {
    &&& credential.len() > 0
    &&& exists|scheme: Seq<char>|
        #[trigger] same_letters(scheme, "Basic"@) && value == scheme + seq![' '] + credential
}

/// A request shows a Basic credential: the first of its fields that is named
/// `Authorization` holds it.
pub open spec fn shows(fields: Seq<(Seq<char>, Seq<char>)>, credential: Seq<char>) -> bool {
    exists|k: int|
        #[trigger] first_named(fields, "authorization"@, k) && holds_credential(
            fields[k].1,
            credential,
        )
}

/// The credential of a request is the one that it shows; there is none exactly
/// if it shows none.
pub proof fn shown_credential_is_presented(
    fields: Seq<(Seq<char>, Seq<char>)>,
    credential: Seq<char>,
)
    ensures
        presented(fields) == Some(credential) <==> shows(fields, credential),
        presented(fields) is None <==> forall|other: Seq<char>| !#[trigger] shows(fields, other),
{
    let target = "authorization"@;
    assert forall|other: Seq<char>| #[trigger] shows(fields, other) implies presented(fields)
        == Some(other) by {
        let k = choose|k: int|
            #[trigger] first_named(fields, target, k) && holds_credential(fields[k].1, other);
        first_field_is_found(fields, target, k);
        let scheme = choose|scheme: Seq<char>|
            #[trigger] same_letters(scheme, "Basic"@) && fields[k].1 == scheme + seq![' '] + other;
        scheme_is_taken_off(scheme, other);
    }
    if presented(fields) is Some {
        let found = presented(fields)->0;
        first_field_is_found(fields, target, 0);
        some_field_is_first(fields, target, fields.len() as int);
        let k = choose|k: int| first_named(fields, target, k);
        first_field_is_found(fields, target, k);
        only_the_scheme_is_taken_off(fields[k].1);
        assert(holds_credential(fields[k].1, found));
        assert(shows(fields, found));
    }
}

/// A text is cut at its first colon: what stands before it has none, and the
/// two parts joined by a colon are the text.
pub proof fn cut_is_at_the_first_colon(
    text: Seq<char>,
    username: Seq<char>,
    password: Seq<char>,
)
    ensures
        cut_at_colon(text) == Some((username, password)) <==> !username.contains(':') && text
            == username + seq![':'] + password,
        cut_at_colon(text) is None <==> !text.contains(':'),
{
    text.index_of_first_ensures(':');
    if cut_at_colon(text) is Some {
        let i = text.index_of_first(':')->0;
        assert(text =~= text.take(i) + seq![':'] + text.skip(i + 1));
        assert(!text.take(i).contains(':'));
    }
    if !username.contains(':') && text == username + seq![':'] + password {
        let n = username.len() as int;
        assert(text[n] == ':');
        assert forall|j: int| 0 <= j < n implies text[j] != ':' by {
            assert(text[j] == username[j]);
        }
        assert(text.take(n) =~= username);
        assert(text.skip(n + 1) =~= password);
    }
}

/// What is said of a credential, step by step: it is not base64; its bytes are
/// not UTF-8; its text has no colon; nothing stands before the first colon;
/// nothing stands behind it. A credential of which none of these holds yields
/// the two parts of its text, whole.
pub proof fn credential_is_read_step_by_step(
    bytes: Seq<u8>,
    username: Seq<char>,
    password: Seq<char>,
)
    ensures
        credential_parts(None) == Err::<(Seq<char>, Seq<char>), Seq<char>>(
            "malformed Basic credential (base64)"@,
        ),
        !valid_utf8(bytes) ==> credential_parts(Some(bytes)) == Err::<
            (Seq<char>, Seq<char>),
            Seq<char>,
        >("malformed Basic credential (non-utf8)"@),
        valid_utf8(bytes) && !decode_utf8(bytes).contains(':') ==> credential_parts(Some(bytes))
            == Err::<(Seq<char>, Seq<char>), Seq<char>>("malformed Basic credential (no colon)"@),
        valid_utf8(bytes) && decode_utf8(bytes) == username + seq![':'] + password
            && !username.contains(':') ==> credential_parts(Some(bytes)) == (if username.len()
            == 0 {
            Err::<(Seq<char>, Seq<char>), Seq<char>>("empty username"@)
        } else if password.len() == 0 {
            Err("empty password"@)
        } else {
            Ok((username, password))
        }),
{
    cut_is_at_the_first_colon(decode_utf8(bytes), username, password);
}

/// A request sends a username and a password: the credential that it shows is
/// the base64 form of the two, neither of them empty, joined by a colon, the
/// first that there is.
pub open spec fn sends(
    fields: Seq<(Seq<char>, Seq<char>)>,
    username: Seq<char>,
    password: Seq<char>,
) -> bool {
    &&& username.len() > 0
    &&& password.len() > 0
    &&& !username.contains(':')
    &&& exists|credential: Seq<char>|
        #[trigger] shows(fields, credential) && base64_decoded(encode_utf8(credential)) == Some(
            encode_utf8(username + seq![':'] + password),
        )
}

/// What a request presents is what it sends.
pub proof fn sent_login_is_presented(
    fields: Seq<(Seq<char>, Seq<char>)>,
    username: Seq<char>,
    password: Seq<char>,
)
    ensures
        presents(fields, username, password) <==> sends(fields, username, password),
{
    let text = username + seq![':'] + password;
    if presents(fields, username, password) {
        let credential = presented(fields)->0;
        let bytes = base64_decoded(encode_utf8(credential))->0;
        shown_credential_is_presented(fields, credential);
        cut_is_at_the_first_colon(decode_utf8(bytes), username, password);
        decode_utf8_encode_utf8(bytes);
        assert(shows(fields, credential));
        assert(bytes == encode_utf8(text));
    }
    if sends(fields, username, password) {
        let credential = choose|credential: Seq<char>|
            #[trigger] shows(fields, credential) && base64_decoded(encode_utf8(credential)) == Some(
                encode_utf8(text),
            );
        shown_credential_is_presented(fields, credential);
        encode_utf8_valid_utf8(text);
        encode_utf8_decode_utf8(text);
        credential_is_read_step_by_step(encode_utf8(text), username, password);
    }
}

} // verus!
