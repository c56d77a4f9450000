//! Answers: what a registry makes of a request.

use crate::config::{canonical, UsernameCase};
use crate::credential::{base64_decoded, credential_parts, presented};
use crate::hash::{bcrypt_verdict, HashKind};
use crate::identity::{IdentityModel, ResolutionModel};
use crate::laws::hashes::{argon2_verifies, whole_password_is_verified};
use crate::laws::headers::{
    credential_is_read_step_by_step, first_field_is_found, first_named, none_named, sends,
    sent_login_is_presented, shown_credential_is_presented, shows, some_field_is_first,
};
use crate::laws::letters::{canonical_name_is_the_username, goes_by, same_letters};
use crate::plugin::{
    admission, expired, identity_of, login, resolution, user_named, CompiledModel, RegistryModel,
};
use vstd::prelude::*;
use vstd::utf8::*;

verus! {

/// The user at `k` is the first one with the given canonical name.
pub open spec fn first_with_name(users: Seq<CompiledModel>, name: Seq<char>, k: int) -> bool {
    &&& 0 <= k < users.len()
    &&& users[k].canonical_username == name
    &&& forall|j: int| 0 <= j < k ==> (#[trigger] users[j]).canonical_username != name
}

/// The user that is found under a name is the first one with that name; none is
/// found exactly if none has it.
pub proof fn first_user_is_found(users: Seq<CompiledModel>, name: Seq<char>, k: int)
    ensures
        first_with_name(users, name, k) ==> user_named(users, name) == Some(users[k]),
        user_named(users, name) is None <==> forall|j: int|
            0 <= j < users.len() ==> (#[trigger] users[j]).canonical_username != name,
    decreases users.len(),
{
    if users.len() > 0 {
        let rest = users.drop_first();
        first_user_is_found(rest, name, k - 1);
        assert forall|j: int| 0 <= j < rest.len() implies #[trigger] rest[j] == users[j + 1] by {}
        assert forall|j: int| 0 < j < users.len() implies #[trigger] users[j] == rest[j - 1] by {}
        if users[0].canonical_username != name && first_with_name(users, name, k) {
            assert forall|j: int| 0 <= j < k - 1 implies (#[trigger] rest[j]).canonical_username
                != name by {
                assert(users[j + 1].canonical_username != name);
            }
            assert(first_with_name(rest, name, k - 1));
        }
        if user_named(users, name) is Some && users[0].canonical_username != name {
            let j = choose|j: int|
                0 <= j < rest.len() && (#[trigger] rest[j]).canonical_username == name;
            assert(users[j + 1].canonical_username == name);
        }
    }
}

/// Where a user has a name, there is a first one.
proof fn some_user_is_first(users: Seq<CompiledModel>, name: Seq<char>, n: int)
    requires
        0 <= n <= users.len(),
        exists|j: int| 0 <= j < n && (#[trigger] users[j]).canonical_username == name,
    ensures
        exists|k: int| first_with_name(users, name, k),
    decreases n,
{
    let j = choose|j: int| 0 <= j < n && (#[trigger] users[j]).canonical_username == name;
    if exists|i: int| 0 <= i < j && (#[trigger] users[i]).canonical_username == name {
        some_user_is_first(users, name, j);
    } else {
        assert(first_with_name(users, name, j));
    }
}

/// An account has run out exactly if it has an expiry, and that is now or past;
/// nothing else about it matters.
pub proof fn expiry_alone_ends_an_account(user: CompiledModel, now: int)
    ensures
        expired(user, now) <==> user.expires_at is Some && user.expires_at->0 <= now,
{
}

/// What a registered user is granted: the trust level and the provider label of
/// the registry, the user's own name, and all of the user's roles, groups,
/// scopes and attributes.
pub open spec fn is_granted(
    registry: RegistryModel,
    user: CompiledModel,
    identity: IdentityModel,
) -> bool {
    &&& identity.kind == registry.trust_level
    &&& identity.trust_level == registry.trust_level
    &&& registry.username_case == UsernameCase::Insensitive ==> identity.subject_id == Some(
        user.canonical_username,
    )
    &&& registry.username_case == UsernameCase::Sensitive ==> identity.subject_id == Some(
        user.raw_username,
    )
    &&& identity.auth_provider == Some(registry.auth_provider_label)
    &&& identity.issuer is None
    &&& identity.roles == user.roles
    &&& identity.groups == user.groups
    &&& identity.scopes == user.scopes
    &&& identity.attributes == user.attributes
}

/// An answer is an identity, and that identity is what the user is granted.
pub open spec fn grants(
    registry: RegistryModel,
    user: CompiledModel,
    answer: ResolutionModel,
) -> bool {
    answer matches ResolutionModel::Resolved { identity } && is_granted(registry, user, identity)
}

/// The identity of a user is what the user is granted.
pub proof fn identity_is_what_is_granted(registry: RegistryModel, user: CompiledModel)
    ensures
        is_granted(registry, user, identity_of(registry, user)),
{
}

/// What is decided about a registered user rests on the password, the switch
/// and the expiry, in this order, and on nothing else about the user.
pub proof fn account_is_decided(
    registry: RegistryModel,
    user: CompiledModel,
    matched: bool,
    now: int,
)
    ensures
        !matched ==> admission(registry, user, matched, now) == (ResolutionModel::Invalid {
            reason: "password mismatch"@,
        }),
        matched && !user.enabled ==> admission(registry, user, matched, now) == (
        ResolutionModel::Invalid { reason: "user disabled"@ }),
        matched && user.enabled && user.expires_at is Some && user.expires_at->0 <= now
            ==> admission(registry, user, matched, now) == (ResolutionModel::Invalid {
            reason: "user expired"@,
        }),
        matched && user.enabled && (user.expires_at is Some ==> now < user.expires_at->0)
            ==> grants(registry, user, admission(registry, user, matched, now)),
{
}

/// The next provider is asked exactly if a request shows no Basic credential.
pub proof fn request_without_credential_falls_through(
    registry: RegistryModel,
    fields: Seq<(Seq<char>, Seq<char>)>,
    now: int,
)
    ensures
        resolution(registry, fields, now) is NoCredential <==> forall|credential: Seq<char>|
            !#[trigger] shows(fields, credential),
{
    shown_credential_is_presented(fields, seq![]);
}

/// Requests are answered alike if the first `Authorization` field of the one
/// has the value of the first `Authorization` field of the other, wherever the
/// two stand and whatever else the requests hold, or if neither has one.
pub proof fn authorization_value_alone_counts(
    registry: RegistryModel,
    one: Seq<(Seq<char>, Seq<char>)>,
    other: Seq<(Seq<char>, Seq<char>)>,
    i: int,
    j: int,
    now: int,
)
    ensures
        first_named(one, "authorization"@, i) && first_named(other, "authorization"@, j)
            && one[i].1 == other[j].1 ==> resolution(registry, one, now) == resolution(
            registry,
            other,
            now,
        ),
        none_named(one, "authorization"@) && none_named(other, "authorization"@) ==> resolution(
            registry,
            one,
            now,
        ) == resolution(registry, other, now),
{
    first_field_is_found(one, "authorization"@, i);
    first_field_is_found(other, "authorization"@, j);
}

/// Nothing behind an `Authorization` field counts: neither fields of other
/// names nor more of the same name.
pub proof fn later_fields_do_not_count(
    registry: RegistryModel,
    fields: Seq<(Seq<char>, Seq<char>)>,
    more: Seq<(Seq<char>, Seq<char>)>,
    now: int,
)
    requires
        exists|k: int|
            0 <= k < fields.len() && same_letters((#[trigger] fields[k]).0, "authorization"@),
    ensures
        resolution(registry, fields + more, now) == resolution(registry, fields, now),
{
    let target = "authorization"@;
    some_field_is_first(fields, target, fields.len() as int);
    let k = choose|k: int| first_named(fields, target, k);
    assert forall|j: int| 0 <= j < k implies !same_letters(
        (#[trigger] (fields + more)[j]).0,
        target,
    ) by {
        assert((fields + more)[j] == fields[j]);
    }
    assert(first_named(fields + more, target, k));
    authorization_value_alone_counts(registry, fields + more, fields, k, k, now);
}

/// A Basic credential that cannot be taken apart is refused with the reason:
/// it is not base64, its bytes are not UTF-8, its text has no colon, or one of
/// the two parts is empty.
pub proof fn malformed_credential_is_refused(
    registry: RegistryModel,
    fields: Seq<(Seq<char>, Seq<char>)>,
    credential: Seq<char>,
    bytes: Seq<u8>,
    username: Seq<char>,
    password: Seq<char>,
    now: int,
)
    requires
        shows(fields, credential),
    ensures
        base64_decoded(encode_utf8(credential)) is None ==> resolution(registry, fields, now) == (
        ResolutionModel::Invalid { reason: "malformed Basic credential (base64)"@ }),
        base64_decoded(encode_utf8(credential)) == Some(bytes) && !valid_utf8(bytes) ==> resolution(
            registry,
            fields,
            now,
        ) == (ResolutionModel::Invalid { reason: "malformed Basic credential (non-utf8)"@ }),
        base64_decoded(encode_utf8(credential)) == Some(bytes) && valid_utf8(bytes)
            && !decode_utf8(bytes).contains(':') ==> resolution(registry, fields, now) == (
        ResolutionModel::Invalid { reason: "malformed Basic credential (no colon)"@ }),
        base64_decoded(encode_utf8(credential)) == Some(bytes) && valid_utf8(bytes) && decode_utf8(
            bytes,
        ) == seq![':'] + password ==> resolution(registry, fields, now) == (
        ResolutionModel::Invalid { reason: "empty username"@ }),
        base64_decoded(encode_utf8(credential)) == Some(bytes) && valid_utf8(bytes) && decode_utf8(
            bytes,
        ) == username + seq![':'] && username.len() > 0 && !username.contains(':') ==> resolution(
            registry,
            fields,
            now,
        ) == (ResolutionModel::Invalid { reason: "empty password"@ }),
{
    let empty = Seq::<char>::empty();
    shown_credential_is_presented(fields, credential);
    credential_is_read_step_by_step(bytes, empty, password);
    credential_is_read_step_by_step(bytes, username, empty);
    assert(empty + seq![':'] + password =~= seq![':'] + password);
    assert(username + seq![':'] + empty =~= username + seq![':']);
}

/// The user at `i` is the first one that goes by the name of `username`.
pub open spec fn is_meant(registry: RegistryModel, username: Seq<char>, i: int) -> bool {
    &&& 0 <= i < registry.users.len()
    &&& goes_by(registry.username_case, username, registry.users[i].canonical_username)
    &&& forall|j: int|
        0 <= j < i ==> !goes_by(
            registry.username_case,
            username,
            (#[trigger] registry.users[j]).canonical_username,
        )
}

/// The hash of a registered user verifies a password, the whole of it.
pub open spec fn hash_verifies(user: CompiledModel, password: Seq<char>) -> bool {
    match user.hash_kind {
        HashKind::Argon2 => argon2_verifies(user.password_hash, password),
        HashKind::Bcrypt => bcrypt_verdict(password, user.password_hash) == Some(true),
    }
}

/// A request that sends a username and a password is refused where no user goes
/// by that name. Where one does, it is refused if the hash of the first such
/// user does not verify the password; else if that user is disabled; else if the
/// user's expiry is now or past; and else it is resolved to what the user is
/// granted.
pub proof fn sent_login_is_answered(
    registry: RegistryModel,
    fields: Seq<(Seq<char>, Seq<char>)>,
    username: Seq<char>,
    password: Seq<char>,
    now: int,
    i: int,
)
    requires
        sends(fields, username, password),
    ensures
        (forall|j: int|
            0 <= j < registry.users.len() ==> !goes_by(
                registry.username_case,
                username,
                (#[trigger] registry.users[j]).canonical_username,
            )) ==> resolution(registry, fields, now) == (ResolutionModel::Invalid {
            reason: "unknown user"@,
        }),
        is_meant(registry, username, i) && !hash_verifies(registry.users[i], password)
            ==> resolution(registry, fields, now) == (ResolutionModel::Invalid {
            reason: "password mismatch"@,
        }),
        is_meant(registry, username, i) && hash_verifies(registry.users[i], password)
            && !registry.users[i].enabled ==> resolution(registry, fields, now) == (
        ResolutionModel::Invalid { reason: "user disabled"@ }),
        is_meant(registry, username, i) && hash_verifies(registry.users[i], password)
            && registry.users[i].enabled && registry.users[i].expires_at is Some
            && registry.users[i].expires_at->0 <= now ==> resolution(registry, fields, now) == (
        ResolutionModel::Invalid { reason: "user expired"@ }),
        is_meant(registry, username, i) && hash_verifies(registry.users[i], password)
            && registry.users[i].enabled && (registry.users[i].expires_at is Some ==> now
            < registry.users[i].expires_at->0) ==> grants(
            registry,
            registry.users[i],
            resolution(registry, fields, now),
        ),
{
    sent_login_is_presented(fields, username, password);
    login_is_answered(registry, username, password, now, i);
}

/// What is said of a request that sends a username and a password holds of the
/// login with the two.
pub proof fn login_is_answered(
    registry: RegistryModel,
    username: Seq<char>,
    password: Seq<char>,
    now: int,
    i: int,
)
    ensures
        (forall|j: int|
            0 <= j < registry.users.len() ==> !goes_by(
                registry.username_case,
                username,
                (#[trigger] registry.users[j]).canonical_username,
            )) ==> login(registry, username, password, now) == (ResolutionModel::Invalid {
            reason: "unknown user"@,
        }),
        is_meant(registry, username, i) && !hash_verifies(registry.users[i], password) ==> login(
            registry,
            username,
            password,
            now,
        ) == (ResolutionModel::Invalid { reason: "password mismatch"@ }),
        is_meant(registry, username, i) && hash_verifies(registry.users[i], password)
            && !registry.users[i].enabled ==> login(registry, username, password, now) == (
        ResolutionModel::Invalid { reason: "user disabled"@ }),
        is_meant(registry, username, i) && hash_verifies(registry.users[i], password)
            && registry.users[i].enabled && registry.users[i].expires_at is Some
            && registry.users[i].expires_at->0 <= now ==> login(registry, username, password, now)
            == (ResolutionModel::Invalid { reason: "user expired"@ }),
        is_meant(registry, username, i) && hash_verifies(registry.users[i], password)
            && registry.users[i].enabled && (registry.users[i].expires_at is Some ==> now
            < registry.users[i].expires_at->0) ==> grants(
            registry,
            registry.users[i],
            login(registry, username, password, now),
        ),
{
    let name = canonical(registry.username_case, username);
    canonical_name_is_the_username(registry.username_case, username, username);
    assert forall|other: Seq<char>| #[trigger] goes_by(registry.username_case, username, other)
        <==> other == name by {}
    first_user_is_found(registry.users, name, i);
    if is_meant(registry, username, i) {
        assert(first_with_name(registry.users, name, i));
        whole_password_is_verified(registry.users[i].password_hash, password);
    }
}

/// A resolved request sends a username and a password; the first user that goes
/// by that name is enabled, has no expiry or a later one, and has a hash that
/// verifies the password; and the identity is what that user is granted.
pub proof fn resolved_request_is_granted(
    registry: RegistryModel,
    fields: Seq<(Seq<char>, Seq<char>)>,
    now: int,
)
    requires
        resolution(registry, fields, now) is Resolved,
    ensures
        exists|i: int, username: Seq<char>, password: Seq<char>|
            #[trigger] sends(fields, username, password) && #[trigger] is_meant(
                registry,
                username,
                i,
            ) && hash_verifies(registry.users[i], password) && registry.users[i].enabled && (
            registry.users[i].expires_at is Some ==> now < registry.users[i].expires_at->0)
                && grants(registry, registry.users[i], resolution(registry, fields, now)),
{
    let credential = presented(fields)->0;
    let decoded = base64_decoded(encode_utf8(credential));
    let (username, password) = credential_parts(decoded)->Ok_0;
    let name = canonical(registry.username_case, username);
    sent_login_is_presented(fields, username, password);
    canonical_name_is_the_username(registry.username_case, username, username);
    first_user_is_found(registry.users, name, 0);
    some_user_is_first(registry.users, name, registry.users.len() as int);
    let i = choose|i: int| first_with_name(registry.users, name, i);
    assert(is_meant(registry, username, i));
    sent_login_is_answered(registry, fields, username, password, now, i);
}

} // verus!
