//! Loading: from the configuration as it is declared to the answers it gives.

use crate::config::{
    canonical, config_fault, repeats_earlier, user_fault, ConfigFault, ConfigModel, UserModel,
    UsernameCase,
};
use crate::hash::{bcrypt_verdict, hash_kind_of, HashKind};
use crate::identity::{IdentityModel, ResolutionModel};
use crate::laws::answers::{
    grants, hash_verifies, is_meant, resolved_request_is_granted, sent_login_is_answered,
};
use crate::laws::hashes::{
    argon2_verifies, prefix_tells_the_kind, starts_as_argon2, starts_as_bcrypt,
};
use crate::laws::headers::sends;
use crate::laws::letters::{
    all_white, blank_is_all_white, canonical_name_is_the_username, goes_by, same_username, white,
};
use crate::laws::{validation_accepts_the_sound, validation_reports_the_first_fault};
use crate::plugin::{
    compiled_registry, compiled_user, hashes_supported, resolution, well_formed, CompiledModel,
    RegistryModel,
};
use crate::text::is_blank;
use vstd::prelude::*;

verus! {

/// A text that starts as a hash string of a supported algorithm does.
pub open spec fn starts_as_hash(hash: Seq<char>) -> bool {
    starts_as_argon2(hash) || starts_as_bcrypt(hash)
}

/// The declared trust level is one of the two that there are.
pub open spec fn declares_trust(config: ConfigModel) -> bool {
    config.trust_level == "verified"@ || config.trust_level == "header_asserted"@
}

/// No two declared usernames are one.
pub open spec fn usernames_differ(config: ConfigModel) -> bool {
    forall|i: int, j: int|
        0 <= i < j < config.users.len() ==> !same_username(
            config.username_case,
            (#[trigger] config.users[i]).username,
            (#[trigger] config.users[j]).username,
        )
}

/// A text that starts as a hash string does is not all white space.
proof fn hash_is_not_white(hash: Seq<char>)
    ensures
        starts_as_hash(hash) ==> !all_white(hash),
{
    reveal_strlit("$argon2id$");
    reveal_strlit("$argon2i$");
    reveal_strlit("$argon2d$");
    reveal_strlit("$2a$");
    reveal_strlit("$2b$");
    reveal_strlit("$2y$");
    if starts_as_hash(hash) {
        first_character("$argon2id$"@, hash);
        first_character("$argon2i$"@, hash);
        first_character("$argon2d$"@, hash);
        first_character("$2a$"@, hash);
        first_character("$2b$"@, hash);
        first_character("$2y$"@, hash);
        assert(!white(hash[0]));
    }
}

/// A text has the first character of a prefix.
proof fn first_character(prefix: Seq<char>, text: Seq<char>)
    requires
        prefix.len() >= 1,
    ensures
        prefix.is_prefix_of(text) ==> text.len() > 0 && text[0] == prefix[0],
{
    if prefix.is_prefix_of(text) {
        assert(text.subrange(0, prefix.len() as int)[0] == prefix[0]);
    }
}

/// A configuration that can be loaded: it declares a user, its trust level is
/// `verified` or `header_asserted`, no username is all white space, every hash
/// starts with one of `$argon2id$`, `$argon2i$`, `$argon2d$`, `$2a$`, `$2b$` and
/// `$2y$`, and no two usernames are one.
pub open spec fn loads(config: ConfigModel) -> bool {
    &&& config.users.len() > 0
    &&& declares_trust(config)
    &&& forall|i: int|
        0 <= i < config.users.len() ==> !all_white((#[trigger] config.users[i]).username)
    &&& forall|i: int|
        0 <= i < config.users.len() ==> starts_as_hash((#[trigger] config.users[i]).password_hash)
    &&& usernames_differ(config)
}

/// Validation finds no fault in exactly the configurations that can be loaded.
pub proof fn configuration_loads(config: ConfigModel)
    ensures
        config_fault(config) is None <==> loads(config),
{
    let users = config.users;
    let case = config.username_case;
    validation_accepts_the_sound(config);
    assert forall|i: int| 0 <= i < users.len() implies {
        &&& is_blank((#[trigger] users[i]).username) <==> all_white(users[i].username)
        &&& is_blank(users[i].password_hash) <==> all_white(users[i].password_hash)
        &&& hash_kind_of(users[i].password_hash) is Some <==> starts_as_hash(users[i].password_hash)
        &&& starts_as_hash(users[i].password_hash) ==> !all_white(users[i].password_hash)
    } by {
        blank_is_all_white(users[i].username);
        blank_is_all_white(users[i].password_hash);
        prefix_tells_the_kind(users[i].password_hash);
        hash_is_not_white(users[i].password_hash);
    }
    assert forall|i: int, j: int| 0 <= i < j < users.len() implies (canonical(
        case,
        (#[trigger] users[i]).username,
    ) == canonical(case, (#[trigger] users[j]).username) <==> same_username(
        case,
        users[i].username,
        users[j].username,
    )) by {
        canonical_name_is_the_username(case, users[i].username, users[j].username);
    }
}

/// The user at `k` has the given fault: of a blank username, a blank hash, a
/// hash that starts as none does and a username declared before, the first one
/// that holds.
pub open spec fn has_fault(config: ConfigModel, k: int, fault: ConfigFault) -> bool {
    let user = config.users[k];
    let repeated = exists|j: int|
        0 <= j < k && same_username(
            config.username_case,
            (#[trigger] config.users[j]).username,
            user.username,
        );
    match fault {
        ConfigFault::EmptyUsername { index } => index == k && all_white(user.username),
        ConfigFault::EmptyPasswordHash { index } => index == k && !all_white(user.username)
            && all_white(user.password_hash),
        ConfigFault::UnsupportedHashAlgorithm { index, username } => index == k && username
            == user.username && !all_white(user.username) && !all_white(user.password_hash)
            && !starts_as_hash(user.password_hash),
        ConfigFault::DuplicateUsername { username } => username == user.username && !all_white(
            user.username,
        ) && starts_as_hash(user.password_hash) && repeated,
        _ => false,
    }
}

/// A user has a fault exactly as validation sees it.
proof fn fault_is_seen(config: ConfigModel, k: int, fault: ConfigFault)
    requires
        0 <= k < config.users.len(),
    ensures
        user_fault(config.users, config.username_case, k) == Some(fault) <==> has_fault(
            config,
            k,
            fault,
        ),
{
    let users = config.users;
    let case = config.username_case;
    blank_is_all_white(users[k].username);
    blank_is_all_white(users[k].password_hash);
    prefix_tells_the_kind(users[k].password_hash);
    hash_is_not_white(users[k].password_hash);
    assert forall|j: int| 0 <= j < k implies (#[trigger] canonical(
        case,
        users[j].username,
    ) == canonical(case, users[k].username) <==> same_username(
        case,
        users[j].username,
        users[k].username,
    )) by {
        canonical_name_is_the_username(case, users[j].username, users[k].username);
    }
    if repeats_earlier(users, case, k) {
        let j = choose|j: int|
            0 <= j < k && #[trigger] canonical(case, users[j].username)
                == canonical(case, users[k].username);
        assert(same_username(case, users[j].username, users[k].username));
    }
    if exists|j: int|
        0 <= j < k && same_username(case, (#[trigger] users[j]).username, users[k].username) {
        let j = choose|j: int|
            0 <= j < k && same_username(case, (#[trigger] users[j]).username, users[k].username);
        assert(canonical(case, users[j].username) == canonical(
            case,
            users[k].username,
        ));
    }
}

/// What is to be reported of a configuration that does not load: that it
/// declares no user; else its trust level, if that is none of the two; else the
/// fault of the first user that has one.
pub open spec fn is_first_fault(config: ConfigModel, fault: ConfigFault) -> bool {
    if config.users.len() == 0 {
        fault == ConfigFault::EmptyUsers
    } else if !declares_trust(config) {
        fault == (ConfigFault::InvalidTrustLevel { value: config.trust_level })
    } else {
        exists|k: int|
            0 <= k < config.users.len() && #[trigger] has_fault(config, k, fault) && forall|
                j: int,
                other: ConfigFault,
            |
                0 <= j < k ==> !#[trigger] has_fault(config, j, other)
    }
}

/// The first fault is the one that is reported.
pub proof fn first_fault_is_reported(config: ConfigModel, fault: ConfigFault)
    requires
        config_fault(config) == Some(fault),
    ensures
        is_first_fault(config, fault),
{
    if config.users.len() > 0 && declares_trust(config) {
        let users = config.users;
        let case = config.username_case;
        validation_reports_the_first_fault(config, fault);
        let k = choose|k: int|
            0 <= k < users.len() && #[trigger] user_fault(users, case, k) == Some(fault) && forall|
                i: int,
            |
                0 <= i < k ==> #[trigger] user_fault(users, case, i) is None;
        fault_is_seen(config, k, fault);
        assert forall|j: int, other: ConfigFault| 0 <= j < k implies !#[trigger] has_fault(
            config,
            j,
            other,
        ) by {
            assert(user_fault(users, case, j) is None);
            fault_is_seen(config, j, other);
        }
    }
}

/// A user is registered as declared: under the name that the username goes by,
/// with the kind that the hash's prefix tells, and with everything else as the
/// configuration has it.
pub open spec fn registered_as(
    case: UsernameCase,
    user: UserModel,
    registered: CompiledModel,
) -> bool {
    &&& goes_by(case, user.username, registered.canonical_username)
    &&& registered.raw_username == user.username
    &&& registered.password_hash == user.password_hash
    &&& starts_as_argon2(user.password_hash) ==> registered.hash_kind == HashKind::Argon2
    &&& starts_as_bcrypt(user.password_hash) ==> registered.hash_kind == HashKind::Bcrypt
    &&& registered.enabled == user.enabled
    &&& registered.expires_at == user.expires_at
    &&& registered.roles == user.roles
    &&& registered.groups == user.groups
    &&& registered.scopes == user.scopes
    &&& registered.attributes == user.attributes
}

/// The registry of a configuration holds its users, all of them and in their
/// order, as they are declared.
pub proof fn users_are_registered_as_declared(config: ConfigModel)
    ensures
        compiled_registry(config).users.len() == config.users.len(),
        forall|i: int|
            0 <= i < config.users.len() ==> registered_as(
                config.username_case,
                #[trigger] config.users[i],
                compiled_registry(config).users[i],
            ),
        compiled_registry(config).username_case == config.username_case,
        compiled_registry(config).trust_level == config.trust_level,
        compiled_registry(config).auth_provider_label == config.auth_provider_label,
{
    assert forall|i: int| 0 <= i < config.users.len() implies registered_as(
        config.username_case,
        #[trigger] config.users[i],
        compiled_registry(config).users[i],
    ) by {
        let user = config.users[i];
        prefix_tells_the_kind(user.password_hash);
        canonical_name_is_the_username(config.username_case, user.username, user.username);
    }
}

/// One declared user is registered as declared.
pub proof fn user_is_registered_as_declared(case: UsernameCase, user: UserModel)
    ensures
        registered_as(case, user, compiled_user(case, user)),
{
    prefix_tells_the_kind(user.password_hash);
    canonical_name_is_the_username(case, user.username, user.username);
}

/// A configuration can be compiled exactly if every hash starts as one of a
/// supported algorithm does.
pub proof fn supported_hashes_compile(config: ConfigModel)
    ensures
        hashes_supported(config) <==> forall|i: int|
            0 <= i < config.users.len() ==> starts_as_hash(
                (#[trigger] config.users[i]).password_hash,
            ),
{
    assert forall|i: int| 0 <= i < config.users.len() implies (hash_kind_of(
        (#[trigger] config.users[i]).password_hash,
    ) is Some <==> starts_as_hash(config.users[i].password_hash)) by {
        prefix_tells_the_kind(config.users[i].password_hash);
    }
}

/// In a well-formed registry the trust level is one of the two that there are,
/// every user stands under the name that the username goes by, with the kind
/// that the hash's prefix tells, and no two users go by one name.
pub proof fn well_formed_registry_is_in_order(registry: RegistryModel)
    requires
        well_formed(registry),
    ensures
        registry.trust_level == "verified"@ || registry.trust_level == "header_asserted"@,
        forall|i: int|
            0 <= i < registry.users.len() ==> goes_by(
                registry.username_case,
                (#[trigger] registry.users[i]).raw_username,
                registry.users[i].canonical_username,
            ),
        forall|i: int|
            0 <= i < registry.users.len() ==> ((#[trigger] registry.users[i]).hash_kind
                == HashKind::Argon2 <==> starts_as_argon2(registry.users[i].password_hash)),
        forall|i: int|
            0 <= i < registry.users.len() ==> ((#[trigger] registry.users[i]).hash_kind
                == HashKind::Bcrypt <==> starts_as_bcrypt(registry.users[i].password_hash)),
        forall|i: int, j: int|
            0 <= i < j < registry.users.len() ==> (#[trigger] registry.users[i]).canonical_username
                != (#[trigger] registry.users[j]).canonical_username,
{
    assert forall|i: int| 0 <= i < registry.users.len() implies {
        &&& goes_by(
            registry.username_case,
            (#[trigger] registry.users[i]).raw_username,
            registry.users[i].canonical_username,
        )
        &&& registry.users[i].hash_kind == HashKind::Argon2 <==> starts_as_argon2(
            registry.users[i].password_hash,
        )
        &&& registry.users[i].hash_kind == HashKind::Bcrypt <==> starts_as_bcrypt(
            registry.users[i].password_hash,
        )
    } by {
        let user = registry.users[i];
        prefix_tells_the_kind(user.password_hash);
        canonical_name_is_the_username(
            registry.username_case,
            user.raw_username,
            user.raw_username,
        );
    }
}

/// The user declared at `i` is the one that `username` names.
pub open spec fn is_declared(config: ConfigModel, username: Seq<char>, i: int) -> bool {
    &&& 0 <= i < config.users.len()
    &&& same_username(config.username_case, username, config.users[i].username)
}

/// A declared hash verifies a password, the whole of it.
pub open spec fn declared_hash_verifies(hash: Seq<char>, password: Seq<char>) -> bool {
    ||| starts_as_argon2(hash) && argon2_verifies(hash, password)
    ||| starts_as_bcrypt(hash) && bcrypt_verdict(password, hash) == Some(true)
}

/// An identity is what a configuration declares for the user at `i`: the trust
/// level, the provider label, the username in the form that it goes by, and all
/// of the user's roles, groups, scopes and attributes.
pub open spec fn is_as_declared(config: ConfigModel, i: int, identity: IdentityModel) -> bool {
    &&& identity.kind == config.trust_level
    &&& identity.trust_level == config.trust_level
    &&& identity.subject_id is Some
    &&& goes_by(config.username_case, config.users[i].username, identity.subject_id->0)
    &&& identity.auth_provider == Some(config.auth_provider_label)
    &&& identity.issuer is None
    &&& identity.roles == config.users[i].roles
    &&& identity.groups == config.users[i].groups
    &&& identity.scopes == config.users[i].scopes
    &&& identity.attributes == config.users[i].attributes
}

/// A configuration that loads has one user at most for a username, and its
/// registry means that one.
proof fn declared_user_is_meant(config: ConfigModel, username: Seq<char>, i: int)
    requires
        config_fault(config) is None,
    ensures
        is_declared(config, username, i) <==> is_meant(compiled_registry(config), username, i),
{
    let registry = compiled_registry(config);
    let case = config.username_case;
    configuration_loads(config);
    users_are_registered_as_declared(config);
    assert forall|j: int| 0 <= j < config.users.len() implies (goes_by(
        case,
        username,
        (#[trigger] registry.users[j]).canonical_username,
    ) <==> same_username(case, username, config.users[j].username)) by {
        assert(registered_as(case, config.users[j], registry.users[j]));
    }
    if is_declared(config, username, i) {
        assert(goes_by(case, username, registry.users[i].canonical_username));
        assert forall|j: int| 0 <= j < i implies !goes_by(
            case,
            username,
            (#[trigger] registry.users[j]).canonical_username,
        ) by {
            assert(!same_username(case, config.users[j].username, config.users[i].username));
        }
    }
}

/// A declared hash verifies what the registered user's hash verifies.
proof fn declared_hash_is_registered(config: ConfigModel, i: int, password: Seq<char>)
    requires
        config_fault(config) is None,
        0 <= i < config.users.len(),
    ensures
        hash_verifies(compiled_registry(config).users[i], password) <==> declared_hash_verifies(
            config.users[i].password_hash,
            password,
        ),
{
    configuration_loads(config);
    users_are_registered_as_declared(config);
    assert(registered_as(
        config.username_case,
        config.users[i],
        compiled_registry(config).users[i],
    ));
    assert(starts_as_hash(config.users[i].password_hash));
    prefix_tells_the_kind(config.users[i].password_hash);
}

/// From the declaration to the answer: a request that sends a username and a
/// password to a configuration that loads is refused if the username is not
/// declared; else if the declared hash does not verify the password; else if
/// the user is declared disabled; else if the declared expiry is now or past;
/// and else it is resolved to what is declared.
pub proof fn declared_user_is_answered(
    config: ConfigModel,
    fields: Seq<(Seq<char>, Seq<char>)>,
    username: Seq<char>,
    password: Seq<char>,
    now: int,
    i: int,
)
    requires
        config_fault(config) is None,
        sends(fields, username, password),
    ensures
        (forall|j: int| !#[trigger] is_declared(config, username, j)) ==> resolution(
            compiled_registry(config),
            fields,
            now,
        ) == (ResolutionModel::Invalid { reason: "unknown user"@ }),
        is_declared(config, username, i) && !declared_hash_verifies(
            config.users[i].password_hash,
            password,
        ) ==> resolution(compiled_registry(config), fields, now) == (ResolutionModel::Invalid {
            reason: "password mismatch"@,
        }),
        is_declared(config, username, i) && declared_hash_verifies(
            config.users[i].password_hash,
            password,
        ) && !config.users[i].enabled ==> resolution(compiled_registry(config), fields, now) == (
        ResolutionModel::Invalid { reason: "user disabled"@ }),
        is_declared(config, username, i) && declared_hash_verifies(
            config.users[i].password_hash,
            password,
        ) && config.users[i].enabled && config.users[i].expires_at is Some
            && config.users[i].expires_at->0 <= now ==> resolution(
            compiled_registry(config),
            fields,
            now,
        ) == (ResolutionModel::Invalid { reason: "user expired"@ }),
        is_declared(config, username, i) && declared_hash_verifies(
            config.users[i].password_hash,
            password,
        ) && config.users[i].enabled && (config.users[i].expires_at is Some ==> now
            < config.users[i].expires_at->0) ==> (resolution(
            compiled_registry(config),
            fields,
            now,
        ) matches ResolutionModel::Resolved { identity } && is_as_declared(config, i, identity)),
{
    let registry = compiled_registry(config);
    users_are_registered_as_declared(config);
    sent_login_is_answered(registry, fields, username, password, now, i);
    declared_user_is_meant(config, username, i);
    if is_declared(config, username, i) {
        declared_hash_is_registered(config, i, password);
        assert(registered_as(config.username_case, config.users[i], registry.users[i]));
    }
    if forall|j: int| !#[trigger] is_declared(config, username, j) {
        assert forall|j: int| 0 <= j < registry.users.len() implies !goes_by(
            config.username_case,
            username,
            (#[trigger] registry.users[j]).canonical_username,
        ) by {
            assert(!is_declared(config, username, j));
            assert(registered_as(config.username_case, config.users[j], registry.users[j]));
        }
    }
}

/// A user who is declared disabled is refused, whatever else is declared of the
/// user, whatever the password and whatever the time.
pub proof fn user_declared_disabled_is_refused(
    config: ConfigModel,
    fields: Seq<(Seq<char>, Seq<char>)>,
    username: Seq<char>,
    password: Seq<char>,
    now: int,
    i: int,
)
    requires
        config_fault(config) is None,
        sends(fields, username, password),
        is_declared(config, username, i),
        !config.users[i].enabled,
    ensures
        resolution(compiled_registry(config), fields, now) is Invalid,
{
    declared_user_is_answered(config, fields, username, password, now, i);
}

/// A user with a declared expiry is refused from then on, whatever else is
/// declared of the user and whatever the password.
pub proof fn user_declared_to_expire_is_refused(
    config: ConfigModel,
    fields: Seq<(Seq<char>, Seq<char>)>,
    username: Seq<char>,
    password: Seq<char>,
    now: int,
    i: int,
    expiry: int,
)
    requires
        config_fault(config) is None,
        sends(fields, username, password),
        is_declared(config, username, i),
        config.users[i].expires_at == Some(expiry),
        expiry <= now,
    ensures
        resolution(compiled_registry(config), fields, now) is Invalid,
{
    declared_user_is_answered(config, fields, username, password, now, i);
}

/// Nobody else gets in: a request that is resolved sends the name of a declared
/// user and a password that the declared hash verifies; the user is declared
/// enabled, with no expiry or a later one; and the identity is as declared.
pub proof fn resolved_request_was_declared(
    config: ConfigModel,
    fields: Seq<(Seq<char>, Seq<char>)>,
    now: int,
    identity: IdentityModel,
)
    requires
        config_fault(config) is None,
        resolution(compiled_registry(config), fields, now) == (ResolutionModel::Resolved {
            identity,
        }),
    ensures
        exists|i: int, username: Seq<char>, password: Seq<char>|
            #[trigger] sends(fields, username, password) && #[trigger] is_declared(
                config,
                username,
                i,
            ) && declared_hash_verifies(config.users[i].password_hash, password)
                && config.users[i].enabled && (config.users[i].expires_at is Some ==> now
                < config.users[i].expires_at->0) && is_as_declared(config, i, identity),
{
    let registry = compiled_registry(config);
    resolved_request_is_granted(registry, fields, now);
    let (i, username, password) = choose|i: int, username: Seq<char>, password: Seq<char>|
        #[trigger] sends(fields, username, password) && #[trigger] is_meant(registry, username, i)
            && hash_verifies(registry.users[i], password) && registry.users[i].enabled && (
        registry.users[i].expires_at is Some ==> now < registry.users[i].expires_at->0) && grants(
            registry,
            registry.users[i],
            resolution(registry, fields, now),
        );
    declared_user_is_meant(config, username, i);
    declared_hash_is_registered(config, i, password);
    users_are_registered_as_declared(config);
    assert(registered_as(config.username_case, config.users[i], registry.users[i]));
    assert(is_declared(config, username, i));
}

} // verus!
