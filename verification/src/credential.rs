//! Credentials: from the request headers to a username and a password.

use crate::text::ascii_lower;
use vstd::prelude::*;
use vstd::string::*;
use vstd::utf8::*;

verus! {

/// Header fields as texts: names and values.
pub open spec fn header_fields(headers: Seq<(String, String)>) -> Seq<(Seq<char>, Seq<char>)> {
    headers.map_values(|field: (String, String)| (field.0@, field.1@))
}

/// The value of the first header field named `target`, with ASCII case ignored
/// in names.
pub open spec fn header_value(
    fields: Seq<(Seq<char>, Seq<char>)>,
    target: Seq<char>,
) -> Option<Seq<char>>
    decreases fields.len(),
{
    if fields.len() == 0 {
        None
    } else if ascii_lower(fields[0].0) == ascii_lower(target) {
        Some(fields[0].1)
    } else {
        header_value(fields.drop_first(), target)
    }
}

/// What stands behind the scheme in an `Authorization` value of the Basic
/// scheme: the word, in any ASCII case, and one space.
pub open spec fn behind_basic(value: Seq<char>) -> Option<Seq<char>> {
    if value.len() >= 6 && ascii_lower(value.take(5)) == ascii_lower("Basic"@) && value[5] == ' ' {
        Some(value.skip(6))
    } else {
        None
    }
}

/// The Basic credential that a request presents: encoded, and not empty.
pub open spec fn presented(fields: Seq<(Seq<char>, Seq<char>)>) -> Option<Seq<char>> {
    match header_value(fields, "authorization"@) {
        None => None,
        Some(value) => match behind_basic(value) {
            None => None,
            Some(credential) => if credential.len() == 0 {
                None
            } else {
                Some(credential)
            },
        },
    }
}

/// Finds the value of the first header field named `target`, with ASCII case
/// ignored in names.
pub fn lookup_header<'a>(headers: &'a [(String, String)], target: &str) -> (value: Option<&'a str>)
    ensures
        value.deep_view() == header_value(header_fields(headers@), target@),
{
    let ghost fields = header_fields(headers@);
    let mut i: usize = 0;
    assert(fields.skip(0) =~= fields);
    while i < headers.len()
        invariant
            i <= headers@.len(),
            fields == header_fields(headers@),
            header_value(fields, target@) == header_value(fields.skip(i as int), target@),
        decreases headers@.len() - i,
    {
        let field = &headers[i];
        assert(fields.skip(i as int).drop_first() =~= fields.skip(i + 1));
        if field.0.as_str().eq_ignore_ascii_case(target) {
            return Some(field.1.as_str());
        }
        i += 1;
    }
    None
}

/// Takes the scheme `Basic`, in any ASCII case, and one space off an
/// `Authorization` value.
pub fn strip_basic_prefix(value: &str) -> (rest: Option<&str>)
    ensures
        rest.deep_view() == behind_basic(value@),
{
    let len: usize = value.unicode_len();
    if len < 6 {
        return None;
    }
    let scheme = value.substring_char(0, 5);
    if !scheme.eq_ignore_ascii_case("Basic") || value.get_char(5) != ' ' {
        return None;
    }
    let rest = value.substring_char(6, len);
    Some(rest)
}

/// Finds the Basic credential that a request presents.
pub fn basic_credential<'a>(headers: &'a [(String, String)]) -> (credential: Option<&'a str>)
    ensures
        credential.deep_view() == presented(header_fields(headers@)),
{
    match lookup_header(headers, "authorization") {
        None => None,
        Some(value) => match strip_basic_prefix(value) {
            None => None,
            Some(credential) => if credential.is_empty() {
                None
            } else {
                Some(credential)
            },
        },
    }
}

/// The error of the `base64` crate for a text that it cannot decode.
#[verifier::external_type_specification]
#[verifier::external_body]
pub struct ExBase64DecodeError(base64::DecodeError);

/// The error of the standard library for bytes that are not UTF-8.
#[verifier::external_type_specification]
#[verifier::external_body]
pub struct ExUtf8Error(core::str::Utf8Error);

/// The bytes that standard base64 text decodes to; `None` where it is
/// malformed.
pub uninterp spec fn base64_decoded(encoded: Seq<u8>) -> Option<Seq<u8>>;

/// Trusted: `base64::Engine::decode` of the `STANDARD` engine (the standard
/// alphabet, padding required). It depends on the encoded bytes alone.
#[verifier::external_body]
pub(crate) fn base64_decode(encoded: &[u8]) -> (r: Result<Vec<u8>, base64::DecodeError>)
    ensures
        match r {
            Ok(bytes) => base64_decoded(encoded@) == Some(bytes@),
            Err(_) => base64_decoded(encoded@) is None,
        },
{
    base64::Engine::decode(&base64::engine::general_purpose::STANDARD, encoded)
}

/// Trusted: `core::str::from_utf8` takes exactly the valid UTF-8 encodings, and
/// gives the text that they encode.
pub assume_specification<'a>[ core::str::from_utf8 ](bytes: &'a [u8]) -> (r: Result<
    &'a str,
    core::str::Utf8Error,
>)
    ensures
        match r {
            Ok(text) => valid_utf8(bytes@) && text@ == decode_utf8(bytes@),
            Err(_) => !valid_utf8(bytes@),
        },
;

/// A text cut at its first colon: what stands before it, and what stands after.
pub open spec fn cut_at_colon(text: Seq<char>) -> Option<(Seq<char>, Seq<char>)> {
    match text.index_of_first(':') {
        None => None,
        Some(i) => Some((text.take(i), text.skip(i + 1))),
    }
}

/// The username and the password of a decoded credential, or the reason why it
/// is rejected. `None` stands for a credential that could not be decoded.
pub open spec fn credential_parts(decoded: Option<Seq<u8>>) -> Result<
    (Seq<char>, Seq<char>),
    Seq<char>,
> {
    match decoded {
        None => Err("malformed Basic credential (base64)"@),
        Some(bytes) => if !valid_utf8(bytes) {
            Err("malformed Basic credential (non-utf8)"@)
        } else {
            match cut_at_colon(decode_utf8(bytes)) {
                None => Err("malformed Basic credential (no colon)"@),
                Some((username, password)) => if username.len() == 0 {
                    Err("empty username"@)
                } else if password.len() == 0 {
                    Err("empty password"@)
                } else {
                    Ok((username, password))
                },
            }
        },
    }
}

/// The bytes of a decoding that succeeded.
pub open spec fn decoded_bytes(decoded: Result<Vec<u8>, base64::DecodeError>) -> Option<Seq<u8>> {
    match decoded {
        Ok(bytes) => Some(bytes@),
        Err(_) => None,
    }
}

/// The outcome of reading a credential, as texts.
pub open spec fn parts_view(parts: Result<(String, String), String>) -> Result<
    (Seq<char>, Seq<char>),
    Seq<char>,
> {
    match parts {
        Ok((username, password)) => Ok((username@, password@)),
        Err(reason) => Err(reason@),
    }
}

/// Finds the place of the first colon in a text.
fn find_colon(text: &str) -> (place: Option<usize>)
    ensures
        match place {
            Some(i) => text@.index_of_first(':') == Some(i as int) && i < text@.len(),
            None => text@.index_of_first(':') is None,
        },
{
    let mut i: usize = 0;
    proof {
        text@.index_of_first_ensures(':');
    }
    let len: usize = text.unicode_len();
    for c in it: text.chars()
        invariant
            it.seq() == text@,
            i == it.index(),
            len == text@.len(),
            forall|j: int| 0 <= j < i ==> text@[j] != ':',
    {
        if c == ':' {
            proof {
                text@.index_of_first_ensures(':');
            }
            return Some(i);
        }
        i += 1;
    }
    None
}

/// Reads a username and a password out of a decoded credential, or gives the
/// reason why it is rejected.
pub fn read_credential(decoded: Result<Vec<u8>, base64::DecodeError>) -> (parts: Result<
    (String, String),
    String,
>)
    ensures
        parts_view(parts) == credential_parts(decoded_bytes(decoded)),
{
    let bytes = match decoded {
        Ok(bytes) => bytes,
        Err(_) => {
            return Err("malformed Basic credential (base64)".to_owned());
        },
    };
    let text = match core::str::from_utf8(bytes.as_slice()) {
        Ok(text) => text,
        Err(_) => {
            return Err("malformed Basic credential (non-utf8)".to_owned());
        },
    };
    let colon: usize = match find_colon(text) {
        Some(colon) => colon,
        None => {
            return Err("malformed Basic credential (no colon)".to_owned());
        },
    };
    let len: usize = text.unicode_len();
    let username = text.substring_char(0, colon);
    let password = text.substring_char(colon + 1, len);
    if username.is_empty() {
        return Err("empty username".to_owned());
    }
    if password.is_empty() {
        return Err("empty password".to_owned());
    }
    Ok((username.to_owned(), password.to_owned()))
}

} // verus!
