//! What holds of the library as a whole.

pub mod answers;
pub mod calls;
pub mod hashes;
pub mod headers;
pub mod letters;
pub mod loading;
pub mod models;
pub mod wording;

use crate::config::{
    canonical, config_fault, known_trust_level, repeats_earlier, user_fault, users_fault,
    ConfigFault, ConfigModel, UserModel, UsernameCase,
};
use crate::credential::{
    base64_decoded, behind_basic, credential_parts, cut_at_colon, header_value, presented,
};
use crate::hash::{bcrypt_verdict, hash_kind_of, password_matches, phc_params, HashKind};
use crate::identity::{outcome_label, IdentityModel, ResolutionModel};
use crate::plugin::{
    compiled_registry, expired, hashes_supported, identity_of, login, resolution, user_named,
    well_formed, CompiledModel, RegistryModel,
};
use crate::text::{ascii_lower, is_blank, lowers_to, unicode_lowercase};
use vstd::prelude::*;
use vstd::utf8::*;

verus! {

/// A user entry that is sound by itself: a username and a hash string that are
/// not blank, the hash of a supported algorithm.
pub open spec fn sound_user(user: UserModel) -> bool {
    &&& !is_blank(user.username)
    &&& !is_blank(user.password_hash)
    &&& hash_kind_of(user.password_hash) is Some
}

/// A configuration that is sound: at least one user, a known trust level, sound
/// users, and no two users with one canonical name.
pub open spec fn sound_config(config: ConfigModel) -> bool {
    &&& config.users.len() > 0
    &&& known_trust_level(config.trust_level)
    &&& forall|i: int| 0 <= i < config.users.len() ==> sound_user(#[trigger] config.users[i])
    &&& forall|i: int, j: int|
        0 <= i < j < config.users.len() ==> canonical(
            config.username_case,
            (#[trigger] config.users[i]).username,
        ) != canonical(config.username_case, (#[trigger] config.users[j]).username)
}

/// The users from `index` on have no fault exactly if none of them has one.
proof fn users_fault_none(users: Seq<UserModel>, case: UsernameCase, index: int)
    requires
        0 <= index,
    ensures
        users_fault(users, case, index) is None <==> forall|i: int|
            index <= i < users.len() ==> #[trigger] user_fault(users, case, i) is None,
    decreases users.len() - index,
{
    if index < users.len() {
        users_fault_none(users, case, index + 1);
    }
}

/// Validation accepts exactly the sound configurations.
pub proof fn validation_accepts_the_sound(config: ConfigModel)
    ensures
        config_fault(config) is None <==> sound_config(config),
{
    let users = config.users;
    let case = config.username_case;
    users_fault_none(users, case, 0);
    if config_fault(config) is None {
        assert forall|i: int| 0 <= i < users.len() implies sound_user(#[trigger] users[i]) by {
            assert(user_fault(users, case, i) is None);
        }
        assert forall|i: int, j: int| 0 <= i < j < users.len() implies canonical(
            case,
            (#[trigger] users[i]).username,
        ) != canonical(case, (#[trigger] users[j]).username) by {
            assert(user_fault(users, case, j) is None);
        }
    }
    if sound_config(config) {
        assert forall|i: int| 0 <= i < users.len() implies #[trigger] user_fault(users, case, i)
            is None by {
            assert(!repeats_earlier(users, case, i));
        }
    }
}

/// Validation reports the first user that has a fault: the users before it
/// have none.
pub proof fn validation_reports_the_first_fault(config: ConfigModel, fault: ConfigFault)
    requires
        config.users.len() > 0,
        known_trust_level(config.trust_level),
        config_fault(config) == Some(fault),
    ensures
        exists|k: int|
            0 <= k < config.users.len() && #[trigger] user_fault(
                config.users,
                config.username_case,
                k,
            ) == Some(fault) && forall|i: int|
                0 <= i < k ==> #[trigger] user_fault(config.users, config.username_case, i) is None,
{
    first_user_fault(config.users, config.username_case, 0, fault);
}

/// The fault of the users from `index` on is that of the first one with a
/// fault.
proof fn first_user_fault(
    users: Seq<UserModel>,
    case: UsernameCase,
    index: int,
    fault: ConfigFault,
)
    requires
        0 <= index,
        users_fault(users, case, index) == Some(fault),
    ensures
        exists|k: int|
            index <= k < users.len() && #[trigger] user_fault(users, case, k) == Some(fault)
                && forall|i: int|
                index <= i < k ==> #[trigger] user_fault(users, case, i) is None,
    decreases users.len() - index,
{
    if user_fault(users, case, index) is None {
        first_user_fault(users, case, index + 1, fault);
    }
}

/// A hash string that starts with none of the supported prefixes keeps its
/// configuration from being loaded.
pub proof fn unsupported_hash_is_refused(config: ConfigModel, i: int)
    requires
        0 <= i < config.users.len(),
        hash_kind_of(config.users[i].password_hash) is None,
    ensures
        config_fault(config) is Some,
{
    validation_accepts_the_sound(config);
}

/// Two users with one canonical name keep their configuration from being
/// loaded.
pub proof fn duplicate_username_is_refused(config: ConfigModel, i: int, j: int)
    requires
        0 <= i < j < config.users.len(),
        canonical(config.username_case, config.users[i].username) == canonical(
            config.username_case,
            config.users[j].username,
        ),
    ensures
        config_fault(config) is Some,
{
    validation_accepts_the_sound(config);
}

/// What loads with case folded loads with case kept, too.
pub proof fn folding_is_the_stricter(config: ConfigModel)
    requires
        config.username_case == UsernameCase::Insensitive,
        config_fault(config) is None,
    ensures
        config_fault(ConfigModel { username_case: UsernameCase::Sensitive, ..config }) is None,
{
    let kept = ConfigModel { username_case: UsernameCase::Sensitive, ..config };
    validation_accepts_the_sound(config);
    validation_accepts_the_sound(kept);
}

/// A configuration that validates compiles, and into a well-formed registry.
pub proof fn validated_config_compiles(config: ConfigModel)
    requires
        config_fault(config) is None,
    ensures
        hashes_supported(config),
        well_formed(compiled_registry(config)),
{
    validation_accepts_the_sound(config);
}

/// The user that is found under a name stands in the list and has that name.
proof fn named_user_is_listed(users: Seq<CompiledModel>, name: Seq<char>)
    ensures
        match user_named(users, name) {
            Some(user) => user.canonical_username == name && exists|i: int|
                0 <= i < users.len() && #[trigger] users[i] == user,
            None => forall|i: int|
                0 <= i < users.len() ==> (#[trigger] users[i]).canonical_username != name,
        },
    decreases users.len(),
{
    if users.len() > 0 {
        let rest = users.drop_first();
        named_user_is_listed(rest, name);
        assert forall|i: int| 0 < i < users.len() implies #[trigger] users[i] == rest[i - 1] by {}
    }
}

/// No user shadows another: each one is found under its own canonical name.
pub proof fn no_user_is_shadowed(registry: RegistryModel, i: int)
    requires
        well_formed(registry),
        0 <= i < registry.users.len(),
    ensures
        user_named(registry.users, registry.users[i].canonical_username) == Some(registry.users[i]),
{
    let name = registry.users[i].canonical_username;
    named_user_is_listed(registry.users, name);
}

/// `username` and `password` are what a request presents: its Basic credential
/// decodes to them.
pub open spec fn presents(
    fields: Seq<(Seq<char>, Seq<char>)>,
    username: Seq<char>,
    password: Seq<char>,
) -> bool {
    presented(fields) matches Some(credential) && credential_parts(
        base64_decoded(encode_utf8(credential)),
    ) == Ok::<(Seq<char>, Seq<char>), Seq<char>>((username, password))
}

/// A registered user may log in with a password: it has the username's
/// canonical name, its hash matches the password, it is enabled, and it has not
/// expired.
pub open spec fn may_log_in(
    registry: RegistryModel,
    user: CompiledModel,
    username: Seq<char>,
    password: Seq<char>,
    now: int,
) -> bool {
    &&& user.canonical_username == canonical(registry.username_case, username)
    &&& password_matches(user.password_hash, user.hash_kind, password)
    &&& user.enabled
    &&& !expired(user, now)
}

/// A request that presents a username and a password is answered as that login.
pub proof fn presenting_is_logging_in(
    registry: RegistryModel,
    fields: Seq<(Seq<char>, Seq<char>)>,
    username: Seq<char>,
    password: Seq<char>,
    now: int,
)
    requires
        presents(fields, username, password),
    ensures
        resolution(registry, fields, now) == login(registry, username, password, now),
{
}

/// A request is resolved only for a registered user whose password it presents,
/// and who is enabled and not expired; the identity is that user's.
pub proof fn resolved_is_authenticated(
    registry: RegistryModel,
    fields: Seq<(Seq<char>, Seq<char>)>,
    now: int,
    identity: IdentityModel,
)
    requires
        resolution(registry, fields, now) == (ResolutionModel::Resolved { identity }),
    ensures
        exists|i: int, username: Seq<char>, password: Seq<char>|
            0 <= i < registry.users.len() && #[trigger] presents(fields, username, password)
                && #[trigger] may_log_in(registry, registry.users[i], username, password, now)
                && identity == identity_of(registry, registry.users[i]),
{
    let decoded = base64_decoded(encode_utf8(presented(fields)->0));
    let (username, password) = credential_parts(decoded)->Ok_0;
    let name = canonical(registry.username_case, username);
    named_user_is_listed(registry.users, name);
    let user = user_named(registry.users, name)->0;
    let i = choose|i: int| 0 <= i < registry.users.len() && #[trigger] registry.users[i] == user;
    assert(presents(fields, username, password));
    assert(may_log_in(registry, registry.users[i], username, password, now));
}

/// A request that presents the password of a registered user, who is enabled
/// and not expired, is resolved to that user's identity.
pub proof fn authenticated_is_resolved(
    registry: RegistryModel,
    fields: Seq<(Seq<char>, Seq<char>)>,
    now: int,
    i: int,
    username: Seq<char>,
    password: Seq<char>,
)
    requires
        well_formed(registry),
        0 <= i < registry.users.len(),
        presents(fields, username, password),
        may_log_in(registry, registry.users[i], username, password, now),
    ensures
        resolution(registry, fields, now) == (ResolutionModel::Resolved {
            identity: identity_of(registry, registry.users[i]),
        }),
{
    no_user_is_shadowed(registry, i);
}

/// What a configuration declares is what a caller gets: the holder of a
/// declared user's password, the user enabled and not expired, is resolved, and
/// to what the configuration grants that user.
pub proof fn declared_user_is_resolved(
    config: ConfigModel,
    fields: Seq<(Seq<char>, Seq<char>)>,
    now: int,
    i: int,
    username: Seq<char>,
    password: Seq<char>,
)
    requires
        config_fault(config) is None,
        0 <= i < config.users.len(),
        presents(fields, username, password),
        canonical(config.username_case, username) == canonical(
            config.username_case,
            config.users[i].username,
        ),
        hash_kind_of(config.users[i].password_hash) matches Some(kind) && password_matches(
            config.users[i].password_hash,
            kind,
            password,
        ),
        config.users[i].enabled,
        config.users[i].expires_at matches Some(expiry) ==> now < expiry,
    ensures
        resolution(compiled_registry(config), fields, now) == (ResolutionModel::Resolved {
            identity: IdentityModel {
                kind: config.trust_level,
                trust_level: config.trust_level,
                subject_id: Some(canonical(config.username_case, username)),
                auth_provider: Some(config.auth_provider_label),
                issuer: None,
                roles: config.users[i].roles,
                groups: config.users[i].groups,
                scopes: config.users[i].scopes,
                attributes: config.users[i].attributes,
            },
        }),
{
    let registry = compiled_registry(config);
    validated_config_compiles(config);
    authenticated_is_resolved(registry, fields, now, i, username, password);
}

/// The next provider is asked exactly if no Basic credential is presented,
/// whatever the registry and the time.
pub proof fn only_absence_falls_through(
    registry: RegistryModel,
    fields: Seq<(Seq<char>, Seq<char>)>,
    now: int,
)
    ensures
        resolution(registry, fields, now) is NoCredential <==> presented(fields) is None,
{
}

/// A presented credential that no user may log in with is refused, and not
/// handed on.
pub proof fn unauthenticated_is_refused(
    registry: RegistryModel,
    fields: Seq<(Seq<char>, Seq<char>)>,
    now: int,
)
    requires
        presented(fields) is Some,
        forall|i: int, username: Seq<char>, password: Seq<char>|
            0 <= i < registry.users.len() && #[trigger] presents(fields, username, password)
                ==> !#[trigger] may_log_in(
                registry,
                registry.users[i],
                username,
                password,
                now,
            ),
    ensures
        resolution(registry, fields, now) is Invalid,
{
    match resolution(registry, fields, now) {
        ResolutionModel::Resolved { identity } => {
            resolved_is_authenticated(registry, fields, now, identity);
        },
        _ => {},
    }
}

/// The trust level of a resolved identity is the one that the configuration
/// names, one of the two that there are; it is the identity's kind, too.
pub proof fn resolved_trust_level_is_known(
    registry: RegistryModel,
    fields: Seq<(Seq<char>, Seq<char>)>,
    now: int,
    identity: IdentityModel,
)
    requires
        well_formed(registry),
        resolution(registry, fields, now) == (ResolutionModel::Resolved { identity }),
    ensures
        identity.trust_level == registry.trust_level,
        identity.kind == identity.trust_level,
        known_trust_level(identity.trust_level),
        identity.auth_provider == Some(registry.auth_provider_label),
{
}

/// The subject of a resolved identity is the canonical form of the username
/// that was presented.
pub proof fn subject_is_canonical(
    registry: RegistryModel,
    username: Seq<char>,
    password: Seq<char>,
    now: int,
    identity: IdentityModel,
)
    requires
        well_formed(registry),
        login(registry, username, password, now) == (ResolutionModel::Resolved { identity }),
    ensures
        identity.subject_id == Some(canonical(registry.username_case, username)),
{
    named_user_is_listed(registry.users, canonical(registry.username_case, username));
}

/// With case folded, usernames with one lower-case form log in alike.
pub proof fn login_folds_the_username(
    registry: RegistryModel,
    one: Seq<char>,
    other: Seq<char>,
    password: Seq<char>,
    now: int,
)
    requires
        registry.username_case == UsernameCase::Insensitive,
        unicode_lowercase(one) == unicode_lowercase(other),
    ensures
        login(registry, one, password, now) == login(registry, other, password, now),
{
}

/// A request carries `text` as its Basic credential: what it presents decodes
/// to that text.
pub open spec fn carries(fields: Seq<(Seq<char>, Seq<char>)>, text: Seq<char>) -> bool {
    presented(fields) matches Some(credential) && base64_decoded(encode_utf8(credential)) == Some(
        encode_utf8(text),
    )
}

/// With case folded, the spelling of a username does not show: requests that
/// carry one password behind usernames with one lower-case form are answered
/// alike, the subject of the identity and the reason of a rejection included.
pub proof fn username_case_is_folded(
    registry: RegistryModel,
    one_fields: Seq<(Seq<char>, Seq<char>)>,
    other_fields: Seq<(Seq<char>, Seq<char>)>,
    one: Seq<char>,
    other: Seq<char>,
    lower: Seq<char>,
    password: Seq<char>,
    now: int,
)
    requires
        registry.username_case == UsernameCase::Insensitive,
        carries(one_fields, one + seq![':'] + password),
        carries(other_fields, other + seq![':'] + password),
        !one.contains(':'),
        !other.contains(':'),
        lowers_to(one, lower),
        lowers_to(other, lower),
    ensures
        resolution(registry, one_fields, now) == resolution(registry, other_fields, now),
{
    joined_text_is_cut(one, password);
    joined_text_is_cut(other, password);
}

/// With case kept, a username is known only as it was declared.
pub proof fn username_case_is_kept(
    registry: RegistryModel,
    username: Seq<char>,
    password: Seq<char>,
    now: int,
)
    requires
        well_formed(registry),
        registry.username_case == UsernameCase::Sensitive,
        forall|i: int|
            0 <= i < registry.users.len() ==> (#[trigger] registry.users[i]).raw_username
                != username,
    ensures
        login(registry, username, password, now) == (ResolutionModel::Invalid {
            reason: "unknown user"@,
        }),
{
    named_user_is_listed(registry.users, username);
}

/// A disabled account is never resolved, whatever the password and the time.
pub proof fn disabled_account_is_refused(
    registry: RegistryModel,
    user: CompiledModel,
    username: Seq<char>,
    password: Seq<char>,
    now: int,
)
    requires
        user_named(registry.users, canonical(registry.username_case, username)) == Some(user),
        !user.enabled,
    ensures
        login(registry, username, password, now) is Invalid,
{
}

/// An account that has expired is not resolved, then or at any later time.
pub proof fn expired_account_is_refused(
    registry: RegistryModel,
    user: CompiledModel,
    username: Seq<char>,
    password: Seq<char>,
    now: int,
    later: int,
)
    requires
        user_named(registry.users, canonical(registry.username_case, username)) == Some(user),
        expired(user, now),
        now <= later,
    ensures
        login(registry, username, password, now) is Invalid,
        login(registry, username, password, later) == login(registry, username, password, now),
{
}

/// Time only takes away: what is resolved at some time was resolved alike at
/// every earlier time, by the same registry.
pub proof fn resolved_was_resolved_before(
    registry: RegistryModel,
    fields: Seq<(Seq<char>, Seq<char>)>,
    now: int,
    earlier: int,
)
    requires
        resolution(registry, fields, now) is Resolved,
        earlier <= now,
    ensures
        resolution(registry, fields, earlier) == resolution(registry, fields, now),
{
}

/// The state of an account shows only to a caller who holds its password:
/// without it, the answer is the same whether the account is enabled, disabled
/// or expired.
pub proof fn account_state_is_hidden(
    registry: RegistryModel,
    user: CompiledModel,
    username: Seq<char>,
    password: Seq<char>,
    now: int,
)
    requires
        user_named(registry.users, canonical(registry.username_case, username)) == Some(user),
        !password_matches(user.password_hash, user.hash_kind, password),
    ensures
        login(registry, username, password, now) == (ResolutionModel::Invalid {
            reason: "password mismatch"@,
        }),
{
}

/// A hash string that cannot be read admits nobody: every password is a
/// mismatch.
pub proof fn unreadable_hash_admits_nobody(
    registry: RegistryModel,
    user: CompiledModel,
    username: Seq<char>,
    password: Seq<char>,
    now: int,
)
    requires
        user_named(registry.users, canonical(registry.username_case, username)) == Some(user),
        match user.hash_kind {
            HashKind::Argon2 => phc_params(user.password_hash) is None,
            HashKind::Bcrypt => bcrypt_verdict(password, user.password_hash) is None,
        },
    ensures
        login(registry, username, password, now) == (ResolutionModel::Invalid {
            reason: "password mismatch"@,
        }),
{
}

/// The scheme of an `Authorization` value is read in any ASCII case.
pub proof fn scheme_case_is_ignored(one: Seq<char>, other: Seq<char>)
    requires
        one.len() >= 5,
        other.len() >= 5,
        ascii_lower(one.take(5)) == ascii_lower(other.take(5)),
        one.skip(5) == other.skip(5),
    ensures
        behind_basic(one) == behind_basic(other),
{
    assert(other.len() == other.skip(5).len() + 5);
    if one.len() >= 6 {
        assert(other.skip(5)[0] == other[5]);
        assert(other.skip(6) =~= other.skip(5).skip(1));
    }
}

/// Names of header fields are read in any ASCII case: requests that differ in
/// nothing else are resolved alike.
pub proof fn header_name_case_is_ignored(
    registry: RegistryModel,
    one: Seq<(Seq<char>, Seq<char>)>,
    other: Seq<(Seq<char>, Seq<char>)>,
    now: int,
)
    requires
        same_fields(one, other),
    ensures
        resolution(registry, one, now) == resolution(registry, other, now),
{
    same_fields_same_value(one, other, "authorization"@);
}

/// Two lists of header fields that differ in the ASCII case of names alone.
pub open spec fn same_fields(
    one: Seq<(Seq<char>, Seq<char>)>,
    other: Seq<(Seq<char>, Seq<char>)>,
) -> bool {
    &&& one.len() == other.len()
    &&& forall|i: int|
        0 <= i < one.len() ==> ascii_lower((#[trigger] one[i]).0) == ascii_lower(
            (#[trigger] other[i]).0,
        ) && one[i].1 == other[i].1
}

/// Such lists hold the same value under every name.
proof fn same_fields_same_value(
    one: Seq<(Seq<char>, Seq<char>)>,
    other: Seq<(Seq<char>, Seq<char>)>,
    target: Seq<char>,
)
    requires
        same_fields(one, other),
    ensures
        header_value(one, target) == header_value(other, target),
    decreases one.len(),
{
    if one.len() > 0 {
        same_fields_same_value(one.drop_first(), other.drop_first(), target);
    }
}

/// Of several fields with one name the first counts: what follows a field that
/// was found changes nothing.
pub proof fn first_header_counts(
    fields: Seq<(Seq<char>, Seq<char>)>,
    more: Seq<(Seq<char>, Seq<char>)>,
    target: Seq<char>,
)
    requires
        header_value(fields, target) is Some,
    ensures
        header_value(fields + more, target) == header_value(fields, target),
    decreases fields.len(),
{
    if ascii_lower(fields[0].0) != ascii_lower(target) {
        assert((fields + more).drop_first() =~= fields.drop_first() + more);
        first_header_counts(fields.drop_first(), more, target);
    }
}

/// Header fields of other names do not count.
pub proof fn other_headers_do_not_count(
    registry: RegistryModel,
    before: Seq<(Seq<char>, Seq<char>)>,
    fields: Seq<(Seq<char>, Seq<char>)>,
    now: int,
)
    requires
        forall|i: int|
            0 <= i < before.len() ==> ascii_lower((#[trigger] before[i]).0) != ascii_lower(
                "authorization"@,
            ),
    ensures
        resolution(registry, before + fields, now) == resolution(registry, fields, now),
    decreases before.len(),
{
    if before.len() == 0 {
        assert(before + fields =~= fields);
    } else {
        assert((before + fields).drop_first() =~= before.drop_first() + fields);
        other_headers_do_not_count(registry, before.drop_first(), fields, now);
    }
}

/// A text joined by a colon behind a part without one is cut there again.
proof fn joined_text_is_cut(username: Seq<char>, password: Seq<char>)
    requires
        !username.contains(':'),
    ensures
        ({
            let text = username + seq![':'] + password;
            &&& valid_utf8(encode_utf8(text))
            &&& decode_utf8(encode_utf8(text)) == text
            &&& cut_at_colon(text) == Some((username, password))
        }),
{
    let text = username + seq![':'] + password;
    encode_utf8_valid_utf8(text);
    encode_utf8_decode_utf8(text);
    let n = username.len() as int;
    assert(text[n] == ':');
    text.index_of_first_ensures(':');
    assert(text.take(n) =~= username);
    assert(text.skip(n + 1) =~= password);
}

/// A username without a colon and a password, neither empty, joined by a colon,
/// are read back as they were.
pub proof fn credential_is_read_back(username: Seq<char>, password: Seq<char>)
    requires
        username.len() > 0,
        password.len() > 0,
        !username.contains(':'),
    ensures
        credential_parts(Some(encode_utf8(username + seq![':'] + password))) == Ok::<
            (Seq<char>, Seq<char>),
            Seq<char>,
        >((username, password)),
{
    joined_text_is_cut(username, password);
}

/// Only such a text yields a username and a password: the cut is at the first
/// colon, and nothing is lost.
pub proof fn read_credential_was_joined(
    bytes: Seq<u8>,
    username: Seq<char>,
    password: Seq<char>,
)
    requires
        credential_parts(Some(bytes)) == Ok::<(Seq<char>, Seq<char>), Seq<char>>(
            (username, password),
        ),
    ensures
        username.len() > 0,
        password.len() > 0,
        !username.contains(':'),
        bytes == encode_utf8(username + seq![':'] + password),
{
    let text = decode_utf8(bytes);
    decode_utf8_encode_utf8(bytes);
    text.index_of_first_ensures(':');
    let i = text.index_of_first(':')->0;
    assert(text =~= text.take(i) + seq![':'] + text.skip(i + 1));
}

/// The whole way of a request: an `Authorization` field with the Basic scheme,
/// in any ASCII case, and a credential that decodes to a username and a
/// password joined by a colon is answered as that login.
pub proof fn request_is_a_login(
    registry: RegistryModel,
    name: Seq<char>,
    scheme: Seq<char>,
    credential: Seq<char>,
    username: Seq<char>,
    password: Seq<char>,
    now: int,
)
    requires
        ascii_lower(name) == ascii_lower("authorization"@),
        ascii_lower(scheme) == ascii_lower("Basic"@),
        credential.len() > 0,
        username.len() > 0,
        password.len() > 0,
        !username.contains(':'),
        base64_decoded(encode_utf8(credential)) == Some(
            encode_utf8(username + seq![':'] + password),
        ),
    ensures
        resolution(registry, seq![(name, scheme + seq![' '] + credential)], now) == login(
            registry,
            username,
            password,
            now,
        ),
{
    let value = scheme + seq![' '] + credential;
    let fields = seq![(name, value)];
    reveal_strlit("Basic");
    assert(ascii_lower("Basic"@).len() == 5);
    assert(value.take(5) =~= scheme);
    assert(presented(fields) == Some(credential));
    credential_is_read_back(username, password);
}

/// The three labels tell the three outcomes apart.
pub proof fn labels_tell_outcomes_apart(one: ResolutionModel, other: ResolutionModel)
    ensures
        outcome_label(one) == outcome_label(other) <==> {
            ||| one is Resolved && other is Resolved
            ||| one is NoCredential && other is NoCredential
            ||| one is Invalid && other is Invalid
        },
{
    reveal_strlit("resolved");
    reveal_strlit("none");
    reveal_strlit("invalid");
    assert("none"@.len() == 4);
    assert("invalid"@.len() == 7);
}

} // verus!
