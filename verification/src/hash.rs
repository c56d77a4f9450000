//! Password hashes: which algorithm a hash string belongs to, and whether a
//! password matches it.

use crate::text::{has_prefix, same_text};
use vstd::prelude::*;
use vstd::string::*;
use vstd::utf8::*;

verus! {

/// The algorithm family of a password hash.
#[derive(Debug, Clone, Copy, PartialEq, Eq, Structural)]
pub enum HashKind {
    Argon2,
    Bcrypt,
}

/// The algorithm that the prefix of a hash string announces, if it is one of
/// the supported ones.
pub open spec fn hash_kind_of(hash: Seq<char>) -> Option<HashKind> {
    if "$argon2id$"@.is_prefix_of(hash) || "$argon2i$"@.is_prefix_of(hash)
        || "$argon2d$"@.is_prefix_of(hash) {
        Some(HashKind::Argon2)
    } else if "$2a$"@.is_prefix_of(hash) || "$2b$"@.is_prefix_of(hash) || "$2y$"@.is_prefix_of(
        hash,
    ) {
        Some(HashKind::Bcrypt)
    } else {
        None
    }
}

impl HashKind {
    /// Reads the algorithm off the prefix of a hash string.
    pub fn detect(hash: &str) -> (kind: Option<Self>)
        ensures
            kind == hash_kind_of(hash@),
    {
        if has_prefix(hash, "$argon2id$") || has_prefix(hash, "$argon2i$") || has_prefix(
            hash,
            "$argon2d$",
        ) {
            Some(HashKind::Argon2)
        } else if has_prefix(hash, "$2a$") || has_prefix(hash, "$2b$") || has_prefix(hash, "$2y$") {
            Some(HashKind::Bcrypt)
        } else {
            None
        }
    }
}

/// The value of the last parameter named `p`: the number of lanes that Argon2
/// goes by, where a hash string names it more than once.
pub open spec fn lanes(params: Seq<(Seq<char>, Seq<char>)>) -> Option<Seq<char>>
    decreases params.len(),
{
    if params.len() == 0 {
        None
    } else if params.last().0 == "p"@ {
        Some(params.last().1)
    } else {
        lanes(params.drop_last())
    }
}

/// The number of lanes has nine or more places. Argon2 has at most 2^24 - 1
/// lanes, so no password matches a hash string with such parameters.
pub open spec fn oversized_lanes(params: Seq<(Seq<char>, Seq<char>)>) -> bool {
    lanes(params) matches Some(value) && value.len() >= 9
}

/// Tells whether the number of lanes has nine or more places.
pub fn has_oversized_lanes(params: &Vec<(String, String)>) -> (r: bool)
    ensures
        r == oversized_lanes(params.deep_view()),
{
    let ghost texts = params.deep_view();
    let mut i: usize = params.len();
    assert(texts.take(i as int) =~= texts);
    while i > 0
        invariant
            i <= params@.len(),
            texts == params.deep_view(),
            lanes(texts) == lanes(texts.take(i as int)),
        decreases i,
    {
        i -= 1;
        assert(texts.take(i + 1).drop_last() =~= texts.take(i as int));
        let param = &params[i];
        if same_text(param.0.as_str(), "p") {
            return param.1.as_str().unicode_len() >= 9;
        }
    }
    false
}

/// The error that the password hash crates share.
#[verifier::external_type_specification]
#[verifier::external_body]
pub struct ExPasswordHashError(password_hash::Error);

/// The error of the `bcrypt` crate.
#[verifier::external_type_specification]
#[verifier::external_body]
pub struct ExBcryptError(bcrypt::BcryptError);

/// The parameters of a PHC string, names and values in their order; `None`
/// where `password_hash` does not read the text as one.
pub uninterp spec fn phc_params(hash: Seq<char>) -> Option<Seq<(Seq<char>, Seq<char>)>>;

/// Whether Argon2 verifies `password` against the PHC string `hash`.
pub uninterp spec fn argon2_accepts(hash: Seq<char>, password: Seq<u8>) -> bool;

/// What `bcrypt::verify` says of `password` and `hash`: `None` where it
/// returns an error.
pub uninterp spec fn bcrypt_verdict(password: Seq<char>, hash: Seq<char>) -> Option<bool>;

/// Trusted: `password_hash::PasswordHash::new`, its parameters taken as texts.
/// Whether the text is read, and which parameters it has, depends on the text
/// alone.
#[verifier::external_body]
fn read_phc(hash: &str) -> (r: Result<Vec<(String, String)>, password_hash::Error>)
    ensures
        match r {
            Ok(params) => phc_params(hash@) == Some(params.deep_view()),
            Err(_) => phc_params(hash@) is None,
        },
{
    let parsed = password_hash::PasswordHash::new(hash)?;
    Ok(parsed.params.iter().map(|(name, value)| (name.to_string(), value.to_string())).collect())
}

/// Trusted: the verification of `argon2::Argon2::default()` against a PHC
/// string that is read, with the parameters that the string carries. Whether it
/// succeeds depends on the string and the password alone. An oversized number
/// of lanes is kept out, since the check of it multiplies before it compares,
/// and a build with overflow checks stops there. The memory that the string's
/// own cost parameter asks for is taken to be there.
#[verifier::external_body]
fn argon2_verify(hash: &str, password: &[u8]) -> (r: Result<(), password_hash::Error>)
    requires
        phc_params(hash@) matches Some(params) && !oversized_lanes(params),
    ensures
        r is Ok <==> argon2_accepts(hash@, password@),
{
    let parsed = password_hash::PasswordHash::new(hash)?;
    password_hash::PasswordVerifier::verify_password(&argon2::Argon2::default(), password, &parsed)
}

/// Trusted: `bcrypt::verify`. Its verdict, or that it has none, depends on the
/// password and the hash string alone.
#[verifier::external_body]
fn bcrypt_verify(password: &str, hash: &str) -> (r: Result<bool, bcrypt::BcryptError>)
    ensures
        match r {
            Ok(matched) => bcrypt_verdict(password@, hash@) == Some(matched),
            Err(_) => bcrypt_verdict(password@, hash@) is None,
        },
{
    bcrypt::verify(password, hash)
}

/// A password matches a hash string of the given kind. For Argon2 the string
/// has to be readable, and its number of lanes in bounds.
pub open spec fn password_matches(hash: Seq<char>, kind: HashKind, password: Seq<char>) -> bool {
    match kind {
        HashKind::Argon2 => {
            &&& phc_params(hash) matches Some(params)
            &&& !oversized_lanes(params)
            &&& argon2_accepts(hash, encode_utf8(password))
        },
        HashKind::Bcrypt => bcrypt_verdict(password, hash) == Some(true),
    }
}

/// Verifies a password against a stored hash. A hash string that cannot be
/// read as one of its kind matches no password.
pub fn verify_password(hash: &str, kind: HashKind, password: &str) -> (r: bool)
    ensures
        r == password_matches(hash@, kind, password@),
        kind == HashKind::Argon2 ==> r == (phc_params(hash@) matches Some(params)
            && !oversized_lanes(params) && argon2_accepts(hash@, encode_utf8(password@))),
        kind == HashKind::Bcrypt ==> r == (bcrypt_verdict(password@, hash@) == Some(true)),
{
    match kind {
        HashKind::Argon2 => usable_params(read_phc(hash)) && argon2_verify(
            hash,
            password.as_bytes(),
        ).is_ok(),
        HashKind::Bcrypt => bcrypt_accepts(bcrypt_verify(password, hash)),
    }
}

/// Tells whether a PHC string was read, and has a number of lanes in bounds.
pub fn usable_params(params: Result<Vec<(String, String)>, password_hash::Error>) -> (r: bool)
    ensures
        r == (params matches Ok(params) && !oversized_lanes(params.deep_view())),
{
    match params {
        Ok(params) => !has_oversized_lanes(&params),
        Err(_) => false,
    }
}

/// Tells whether bcrypt found a match. An error of bcrypt is no match.
pub fn bcrypt_accepts(verdict: Result<bool, bcrypt::BcryptError>) -> (r: bool)
    ensures
        r == (verdict matches Ok(matched) && matched),
{
    match verdict {
        Ok(matched) => matched,
        Err(_) => false,
    }
}

} // verus!
