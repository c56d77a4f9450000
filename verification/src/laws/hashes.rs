//! Hash strings: which there are, and which passwords match them.

use crate::hash::{
    argon2_accepts, bcrypt_verdict, hash_kind_of, lanes, oversized_lanes, password_matches,
    phc_params, HashKind,
};
use vstd::prelude::*;
use vstd::utf8::*;

verus! {

/// A text that starts as an Argon2 hash string does.
pub open spec fn starts_as_argon2(hash: Seq<char>) -> bool {
    ||| "$argon2id$"@.is_prefix_of(hash)
    ||| "$argon2i$"@.is_prefix_of(hash)
    ||| "$argon2d$"@.is_prefix_of(hash)
}

/// A text that starts as a bcrypt hash string does.
pub open spec fn starts_as_bcrypt(hash: Seq<char>) -> bool {
    ||| "$2a$"@.is_prefix_of(hash)
    ||| "$2b$"@.is_prefix_of(hash)
    ||| "$2y$"@.is_prefix_of(hash)
}

/// A hash string is of the Argon2 kind exactly if it starts with one of
/// `$argon2id$`, `$argon2i$` and `$argon2d$`, of the bcrypt kind exactly if it
/// starts with one of `$2a$`, `$2b$` and `$2y$`, and never of both; any other
/// text is of no kind.
pub proof fn prefix_tells_the_kind(hash: Seq<char>)
    ensures
        hash_kind_of(hash) == Some(HashKind::Argon2) <==> starts_as_argon2(hash),
        hash_kind_of(hash) == Some(HashKind::Bcrypt) <==> starts_as_bcrypt(hash),
        hash_kind_of(hash) is None <==> !starts_as_argon2(hash) && !starts_as_bcrypt(hash),
        !(starts_as_argon2(hash) && starts_as_bcrypt(hash)),
{
    reveal_strlit("$argon2id$");
    reveal_strlit("$argon2i$");
    reveal_strlit("$argon2d$");
    reveal_strlit("$2a$");
    reveal_strlit("$2b$");
    reveal_strlit("$2y$");
    if starts_as_argon2(hash) {
        second_character("$argon2id$"@, hash);
        second_character("$argon2i$"@, hash);
        second_character("$argon2d$"@, hash);
        assert(hash[1] == 'a');
    }
    if starts_as_bcrypt(hash) {
        second_character("$2a$"@, hash);
        second_character("$2b$"@, hash);
        second_character("$2y$"@, hash);
        assert(hash[1] == '2');
    }
}

/// A text has the second character of a prefix.
proof fn second_character(prefix: Seq<char>, text: Seq<char>)
    requires
        prefix.len() >= 2,
    ensures
        prefix.is_prefix_of(text) ==> text[1] == prefix[1],
{
    if prefix.is_prefix_of(text) {
        assert(text.subrange(0, prefix.len() as int)[1] == prefix[1]);
    }
}

/// The parameter at `k` is the last one named `p`.
pub open spec fn last_lanes(params: Seq<(Seq<char>, Seq<char>)>, k: int) -> bool {
    &&& 0 <= k < params.len()
    &&& params[k].0 == "p"@
    &&& forall|j: int| k < j < params.len() ==> (#[trigger] params[j]).0 != "p"@
}

/// The last parameter named `p`, if there is one, has at most eight places.
pub open spec fn lanes_in_bounds(params: Seq<(Seq<char>, Seq<char>)>) -> bool {
    forall|k: int| #[trigger] last_lanes(params, k) ==> params[k].1.len() <= 8
}

/// The number of lanes is the value of the last parameter named `p`, wherever
/// it stands; there is none exactly if no parameter is named so.
pub proof fn last_lanes_count(params: Seq<(Seq<char>, Seq<char>)>, k: int)
    ensures
        last_lanes(params, k) ==> lanes(params) == Some(params[k].1),
        lanes(params) is None <==> forall|j: int|
            0 <= j < params.len() ==> (#[trigger] params[j]).0 != "p"@,
    decreases params.len(),
{
    if params.len() > 0 {
        let rest = params.drop_last();
        last_lanes_count(rest, k);
        assert forall|j: int| 0 <= j < rest.len() implies #[trigger] rest[j] == params[j] by {}
        assert(params.last() == params[params.len() - 1]);
        if params.last().0 != "p"@ && last_lanes(params, k) {
            assert(last_lanes(rest, k));
        }
        if params.last().0 != "p"@ {
            if forall|j: int| 0 <= j < rest.len() ==> (#[trigger] rest[j]).0 != "p"@ {
                assert forall|j: int| 0 <= j < params.len() implies (#[trigger] params[j]).0
                    != "p"@ by {
                    if j < rest.len() {
                        assert(rest[j] == params[j]);
                    }
                }
            } else {
                let j = choose|j: int| 0 <= j < rest.len() && (#[trigger] rest[j]).0 == "p"@;
                assert(params[j].0 == "p"@);
            }
        }
    }
}

/// Where a parameter is named `p`, there is a last one.
proof fn some_lanes_are_last(params: Seq<(Seq<char>, Seq<char>)>)
    ensures
        lanes(params) is Some ==> exists|k: int| last_lanes(params, k),
    decreases params.len(),
{
    if params.len() > 0 && lanes(params) is Some {
        let n = params.len() - 1;
        if params.last().0 == "p"@ {
            assert(last_lanes(params, n));
        } else {
            let rest = params.drop_last();
            some_lanes_are_last(rest);
            let k = choose|k: int| last_lanes(rest, k);
            assert forall|j: int| k < j < params.len() implies (#[trigger] params[j]).0 != "p"@ by {
                if j < n {
                    assert(rest[j] == params[j]);
                }
            }
            assert(last_lanes(params, k));
        }
    }
}

/// The number of lanes is oversized exactly if the last parameter named `p` has
/// nine or more places; those before it do not count.
pub proof fn lanes_are_bounded(params: Seq<(Seq<char>, Seq<char>)>)
    ensures
        oversized_lanes(params) <==> !lanes_in_bounds(params),
{
    some_lanes_are_last(params);
    if lanes(params) is Some {
        let k = choose|k: int| last_lanes(params, k);
        last_lanes_count(params, k);
    }
    assert forall|k: int| #[trigger] last_lanes(params, k) implies lanes(params) == Some(
        params[k].1,
    ) by {
        last_lanes_count(params, k);
    }
}

/// Argon2 verifies a password against a hash string: the string is read, its
/// lanes are in bounds, and all the UTF-8 bytes of the password are accepted.
pub open spec fn argon2_verifies(hash: Seq<char>, password: Seq<char>) -> bool {
    &&& phc_params(hash) is Some
    &&& lanes_in_bounds(phc_params(hash)->0)
    &&& argon2_accepts(hash, encode_utf8(password))
}

/// A password matches a hash string of the Argon2 kind exactly if the string is
/// read, its lanes are in bounds, and Argon2 accepts all the UTF-8 bytes of the
/// password; one of the bcrypt kind exactly if bcrypt's verdict on the whole
/// password is that it does.
pub proof fn whole_password_is_verified(hash: Seq<char>, password: Seq<char>)
    ensures
        password_matches(hash, HashKind::Argon2, password) <==> argon2_verifies(hash, password),
        password_matches(hash, HashKind::Bcrypt, password) <==> bcrypt_verdict(password, hash)
            == Some(true),
{
    if phc_params(hash) is Some {
        lanes_are_bounded(phc_params(hash)->0);
    }
}

} // verus!
