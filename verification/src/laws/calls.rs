//! Calls: what comes back from the functions of this library, in the terms of
//! what goes into them.

use crate::clock::{deserialize, rfc3339_instant, Timestamp};
use crate::config::{
    canonical_username, config_fault, decimal, default_auth_provider_label, default_true,
    default_trust_level, invalid_json_text, BasicConfig, ConfigError, ResolutionConfig, UserEntry,
    UsernameCase,
};
use crate::credential::{
    basic_credential, header_fields, lookup_header, read_credential, strip_basic_prefix,
};
use crate::hash::{
    bcrypt_accepts, bcrypt_verdict, has_oversized_lanes, usable_params, verify_password, HashKind,
};
use crate::identity::{
    crate_of_path, plugin_manifest, resolve_outcome, IdentityResolution, PluginClass,
    PluginManifest, ResolutionModel,
};
use crate::laws::answers::{
    account_is_decided, first_user_is_found, first_with_name, grants, hash_verifies, is_meant,
    login_is_answered, request_without_credential_falls_through,
};
use crate::laws::hashes::{
    argon2_verifies, lanes_are_bounded, lanes_in_bounds, prefix_tells_the_kind, starts_as_argon2,
    starts_as_bcrypt, whole_password_is_verified,
};
use crate::laws::headers::{
    credential_is_read_step_by_step, first_field_is_found, first_named, none_named,
    only_the_scheme_is_taken_off, scheme_is_taken_off, sends, shown_credential_is_presented, shows,
};
use crate::laws::letters::{
    all_white, blank_is_all_white, canonical_name_is_the_username, goes_by, same_letters,
};
use crate::laws::loading::{
    configuration_loads, declared_hash_verifies, declared_user_is_answered, first_fault_is_reported,
    is_as_declared, is_declared, is_first_fault, loads, registered_as,
    user_is_registered_as_declared, users_are_registered_as_declared,
};
use crate::laws::wording::{first_segment_ends_at_the_separator, separator_at};
use crate::plugin::{
    compile_user, decide, find_user, resolution, resolve_decoded, resolve_with_now, user_models,
    BasicIdentityPlugin, CompiledUser, Inner,
};
use crate::text::{blank, has_prefix, same_text};
use vstd::prelude::*;
use vstd::string::*;
use vstd::utf8::*;

verus! {

/// A text is found blank exactly if it is all white space, the same as another
/// exactly if it is equal to it, and to have a prefix exactly if it starts so.
pub proof fn texts_are_compared_whole(
    text: &str,
    other: &str,
    is_blank: bool,
    is_same: bool,
    is_prefixed: bool,
)
    requires
        call_ensures(blank, (text,), is_blank),
        call_ensures(same_text, (text, other), is_same),
        call_ensures(has_prefix, (text, other), is_prefixed),
    ensures
        is_blank <==> all_white(text@),
        is_same <==> text@ == other@,
        is_prefixed <==> other@.is_prefix_of(text@),
{
    blank_is_all_white(text@);
}

/// The algorithm of a hash string is the one that its prefix tells.
pub proof fn algorithm_is_detected(hash: &str, kind: Option<HashKind>)
    requires
        call_ensures(HashKind::detect, (hash,), kind),
    ensures
        kind == Some(HashKind::Argon2) <==> starts_as_argon2(hash@),
        kind == Some(HashKind::Bcrypt) <==> starts_as_bcrypt(hash@),
{
    prefix_tells_the_kind(hash@);
}

/// A password is verified as a whole: against an Argon2 hash by all of its
/// UTF-8 bytes, against a bcrypt hash by bcrypt's verdict on it.
pub proof fn password_is_verified(hash: &str, kind: HashKind, password: &str, matched: bool)
    requires
        call_ensures(verify_password, (hash, kind, password), matched),
    ensures
        kind == HashKind::Argon2 ==> matched == argon2_verifies(hash@, password@),
        kind == HashKind::Bcrypt ==> matched == (bcrypt_verdict(password@, hash@) == Some(true)),
{
    whole_password_is_verified(hash@, password@);
}

/// Parameters are found usable exactly if they were read and their lanes are in
/// bounds; bcrypt is found to accept exactly if it says so.
pub proof fn results_are_taken_as_they_are(
    params: Vec<(String, String)>,
    read: Result<Vec<(String, String)>, password_hash::Error>,
    verdict: Result<bool, bcrypt::BcryptError>,
    oversized: bool,
    usable: bool,
    accepted: bool,
)
    requires
        call_ensures(has_oversized_lanes, (&params,), oversized),
        call_ensures(usable_params, (read,), usable),
        call_ensures(bcrypt_accepts, (verdict,), accepted),
    ensures
        oversized <==> !lanes_in_bounds(params.deep_view()),
        usable <==> read is Ok && lanes_in_bounds(read->Ok_0.deep_view()),
        accepted <==> verdict is Ok && verdict->Ok_0,
{
    lanes_are_bounded(params.deep_view());
    if read is Ok {
        lanes_are_bounded(read->Ok_0.deep_view());
    }
}

/// An absent text is no point in time and no error; any other text is the point
/// in time that it stands for, or an error where it stands for none.
pub proof fn instant_is_read(
    text: Option<String>,
    instant: Result<Option<Timestamp>, time::error::Parse>,
)
    requires
        call_ensures(deserialize, (text,), instant),
    ensures
        text is None ==> instant is Ok && instant->Ok_0 is None,
        text is Some && rfc3339_instant(text->0@) is None ==> instant is Err,
        text is Some && rfc3339_instant(text->0@) is Some ==> instant is Ok && instant->Ok_0 is Some
            && instant->Ok_0->0.unix_nanos == rfc3339_instant(text->0@)->0,
{
}

/// Where a configuration does not say, a user is enabled, case is folded, the
/// trust level is `verified` and the provider label is `basic`.
pub proof fn defaults_are_as_documented(
    enabled: bool,
    level: String,
    label: String,
    case: UsernameCase,
    resolution: ResolutionConfig,
)
    requires
        call_ensures(default_true, (), enabled),
        call_ensures(default_trust_level, (), level),
        call_ensures(default_auth_provider_label, (), label),
        call_ensures(<UsernameCase as Default>::default, (), case),
        call_ensures(<ResolutionConfig as Default>::default, (), resolution),
    ensures
        enabled,
        level@ == "verified"@,
        label@ == "basic"@,
        case == UsernameCase::Insensitive,
        resolution.trust_level@ == "verified"@,
        resolution.auth_provider_label@ == "basic"@,
{
}

/// The value that is looked up is that of the first field of the name, in any
/// ASCII case, wherever it stands.
pub proof fn header_is_looked_up(
    headers: &[(String, String)],
    target: &str,
    value: Option<&str>,
    k: int,
)
    requires
        call_ensures(lookup_header, (headers, target), value),
    ensures
        first_named(header_fields(headers@), target@, k) ==> value is Some && value->0@
            == headers@[k].1@,
        value is None <==> none_named(header_fields(headers@), target@),
{
    let fields = header_fields(headers@);
    first_field_is_found(fields, target@, k);
    if first_named(fields, target@, k) {
        assert(value.deep_view() == Some(fields[k].1));
    }
}

/// What is taken off a value is the scheme `Basic`, in any ASCII case, and one
/// space; nothing is taken off any other value.
pub proof fn scheme_is_stripped(value: &str, rest: Option<&str>, scheme: Seq<char>, tail: Seq<char>)
    requires
        call_ensures(strip_basic_prefix, (value,), rest),
    ensures
        same_letters(scheme, "Basic"@) && value@ == scheme + seq![' '] + tail ==> rest is Some
            && rest->0@ == tail,
        rest is Some ==> exists|other: Seq<char>|
            #[trigger] same_letters(other, "Basic"@) && value@ == other + seq![' '] + rest->0@,
{
    only_the_scheme_is_taken_off(value@);
    if same_letters(scheme, "Basic"@) {
        scheme_is_taken_off(scheme, tail);
        if value@ == scheme + seq![' '] + tail {
            assert(rest.deep_view() == Some(tail));
        }
    }
    if rest is Some {
        assert(rest.deep_view() == Some(rest->0@));
    }
}

/// The credential that is found is the one that the request shows.
pub proof fn credential_is_found(headers: &[(String, String)], credential: Option<&str>)
    requires
        call_ensures(basic_credential, (headers,), credential),
    ensures
        credential is Some ==> shows(header_fields(headers@), credential->0@),
        credential is None ==> forall|other: Seq<char>|
            !#[trigger] shows(header_fields(headers@), other),
{
    let fields = header_fields(headers@);
    if credential is Some {
        assert(credential.deep_view() == Some(credential->0@));
        shown_credential_is_presented(fields, credential->0@);
    } else {
        shown_credential_is_presented(fields, seq![]);
    }
}

/// A decoded credential is read at its first colon, both parts whole, or it is
/// rejected with the reason.
pub proof fn credential_is_read(
    decoded: Result<Vec<u8>, base64::DecodeError>,
    parts: Result<(String, String), String>,
    username: Seq<char>,
    password: Seq<char>,
)
    requires
        call_ensures(read_credential, (decoded,), parts),
    ensures
        decoded is Err ==> parts is Err && parts->Err_0@ == "malformed Basic credential (base64)"@,
        decoded is Ok && !valid_utf8(decoded->Ok_0@) ==> parts is Err && parts->Err_0@
            == "malformed Basic credential (non-utf8)"@,
        decoded is Ok && valid_utf8(decoded->Ok_0@) && !decode_utf8(decoded->Ok_0@).contains(':')
            ==> parts is Err && parts->Err_0@ == "malformed Basic credential (no colon)"@,
        decoded is Ok && valid_utf8(decoded->Ok_0@) && decode_utf8(decoded->Ok_0@) == username
            + seq![':'] + password && !username.contains(':') ==> {
            &&& username.len() == 0 ==> parts is Err && parts->Err_0@ == "empty username"@
            &&& username.len() > 0 && password.len() == 0 ==> parts is Err && parts->Err_0@
                == "empty password"@
            &&& username.len() > 0 && password.len() > 0 ==> parts is Ok && parts->Ok_0.0@
                == username && parts->Ok_0.1@ == password
        },
{
    let bytes = if decoded is Ok {
        decoded->Ok_0@
    } else {
        Seq::empty()
    };
    credential_is_read_step_by_step(bytes, username, password);
}

/// A username is brought into the form that it goes by.
pub proof fn username_is_brought_into_form(case: UsernameCase, username: &str, name: String)
    requires
        call_ensures(canonical_username, (case, username), name),
    ensures
        goes_by(case, username@, name@),
{
    canonical_name_is_the_username(case, username@, username@);
}

/// A configuration validates exactly if it can be loaded; otherwise its first
/// fault is reported.
pub proof fn configuration_is_validated(config: &BasicConfig, r: Result<(), ConfigError>)
    requires
        call_ensures(BasicConfig::validate, (config,), r),
    ensures
        r is Ok <==> loads(config@),
        r matches Err(error) ==> error.fault() is Some && is_first_fault(
            config@,
            error.fault()->0,
        ),
{
    configuration_loads(config@);
    if config_fault(config@) is Some {
        first_fault_is_reported(config@, config_fault(config@)->0);
    }
}

/// A decoded configuration is handed back unchanged exactly if it can be
/// loaded; an error of decoding is handed on.
pub proof fn configuration_is_parsed(
    decoded: Result<BasicConfig, serde_json::Error>,
    r: Result<BasicConfig, ConfigError>,
)
    requires
        call_ensures(BasicConfig::parse, (decoded,), r),
    ensures
        decoded matches Err(error) ==> r == Err::<BasicConfig, ConfigError>(
            ConfigError::InvalidJson(error),
        ),
        decoded matches Ok(config) ==> if loads(config@) {
            r == Ok::<BasicConfig, ConfigError>(config)
        } else {
            r matches Err(error) && error.fault() is Some && is_first_fault(
                config@,
                error.fault()->0,
            )
        },
{
    if decoded is Ok {
        let config = decoded->Ok_0;
        configuration_loads(config@);
        if config_fault(config@) is Some {
            first_fault_is_reported(config@, config_fault(config@)->0);
        }
    }
}

/// A registry holds the users of a configuration, all of them, in their order
/// and as declared.
pub open spec fn registers(inner: Inner, config: BasicConfig) -> bool {
    &&& inner@.users.len() == config@.users.len()
    &&& forall|i: int|
        0 <= i < config@.users.len() ==> registered_as(
            config.username_case,
            #[trigger] config@.users[i],
            inner@.users[i],
        )
    &&& inner@.username_case == config.username_case
    &&& inner@.trust_level == config.resolution.trust_level@
    &&& inner@.auth_provider_label == config.resolution.auth_provider_label@
}

/// A configuration that is compiled is registered as declared.
pub proof fn configuration_is_compiled(
    config: BasicConfig,
    version: &str,
    code_path: &str,
    plugin: BasicIdentityPlugin,
)
    requires
        call_ensures(
            BasicIdentityPlugin::from_validated_config,
            (config, version, code_path),
            plugin,
        ),
    ensures
        registers(*plugin.inner, config),
{
    users_are_registered_as_declared(config@);
}

/// A user that is compiled is registered as declared.
pub proof fn user_is_compiled(case: UsernameCase, user: UserEntry, registered: CompiledUser)
    requires
        call_ensures(compile_user, (case, user), registered),
    ensures
        registered_as(case, user@, registered@),
{
    user_is_registered_as_declared(case, user@);
}

/// A plugin comes of exactly the configurations that can be loaded, and holds
/// what is declared; otherwise the first fault is reported.
pub proof fn plugin_is_loaded(
    decoded: Result<BasicConfig, serde_json::Error>,
    version: &str,
    code_path: &str,
    r: Result<BasicIdentityPlugin, ConfigError>,
)
    requires
        call_ensures(
            BasicIdentityPlugin::from_config_json,
            (decoded, version, code_path),
            r,
        ),
    ensures
        decoded matches Err(error) ==> r == Err::<BasicIdentityPlugin, ConfigError>(
            ConfigError::InvalidJson(error),
        ),
        decoded matches Ok(config) ==> if loads(config@) {
            r matches Ok(plugin) && registers(*plugin.inner, config)
        } else {
            r matches Err(error) && error.fault() is Some && is_first_fault(
                config@,
                error.fault()->0,
            )
        },
{
    if decoded is Ok {
        let config = decoded->Ok_0;
        configuration_loads(config@);
        users_are_registered_as_declared(config@);
        if config_fault(config@) is Some {
            first_fault_is_reported(config@, config_fault(config@)->0);
        }
    }
}

/// The user that is found is the first one with the name; none is found exactly
/// if none has it.
pub proof fn user_is_found(
    users: Vec<CompiledUser>,
    name: String,
    user: Option<&CompiledUser>,
    k: int,
)
    requires
        call_ensures(find_user, (&users, &name), user),
    ensures
        first_with_name(user_models(users@), name@, k) ==> user is Some && user->0@
            == users@[k]@,
        user is None <==> forall|j: int|
            0 <= j < users@.len() ==> (#[trigger] users@[j])@.canonical_username != name@,
{
    let models = user_models(users@);
    first_user_is_found(models, name@, k);
    assert forall|j: int| 0 <= j < users@.len() implies #[trigger] models[j] == users@[j]@ by {}
    if user is Some {
        let j = choose|j: int|
            0 <= j < models.len() && (#[trigger] models[j]).canonical_username == name@;
        assert(users@[j]@.canonical_username == name@);
    } else {
        assert forall|j: int| 0 <= j < users@.len() implies (
        #[trigger] users@[j])@.canonical_username != name@ by {
            assert(models[j].canonical_username != name@);
        }
    }
}

/// A registered user is refused for a password that does not match, for being
/// disabled, or for an expiry that is now or past, in this order; otherwise the
/// answer is what the user is granted.
pub proof fn user_is_decided_about(
    inner: &Inner,
    user: &CompiledUser,
    matched: bool,
    now: Timestamp,
    answer: IdentityResolution,
)
    requires
        call_ensures(decide, (inner, user, matched, now), answer),
    ensures
        !matched ==> answer@ == (ResolutionModel::Invalid { reason: "password mismatch"@ }),
        matched && !user.enabled ==> answer@ == (ResolutionModel::Invalid {
            reason: "user disabled"@,
        }),
        matched && user.enabled && user.expires_at is Some && user.expires_at->0.unix_nanos
            <= now.unix_nanos ==> answer@ == (ResolutionModel::Invalid { reason: "user expired"@ }),
        matched && user.enabled && (user.expires_at is Some ==> now.unix_nanos
            < user.expires_at->0.unix_nanos) ==> grants(inner@, user@, answer@),
{
    account_is_decided(inner@, user@, matched, now@);
}

/// A decoded credential that holds a username and a password is answered as the
/// registry has it for the two.
pub proof fn decoded_credential_is_answered(
    inner: &Inner,
    decoded: Result<Vec<u8>, base64::DecodeError>,
    now: Timestamp,
    answer: IdentityResolution,
    username: Seq<char>,
    password: Seq<char>,
    i: int,
)
    requires
        call_ensures(resolve_decoded, (inner, decoded, now), answer),
    ensures
        decoded is Err ==> answer@ == (ResolutionModel::Invalid {
            reason: "malformed Basic credential (base64)"@,
        }),
        decoded is Ok && decoded->Ok_0@ == encode_utf8(username + seq![':'] + password)
            && username.len() > 0 && password.len() > 0 && !username.contains(':') && is_meant(
            inner@,
            username,
            i,
        ) ==> {
            &&& !hash_verifies(inner@.users[i], password) ==> answer@ == (
            ResolutionModel::Invalid { reason: "password mismatch"@ })
            &&& !inner@.users[i].enabled ==> answer@ is Invalid
            &&& inner@.users[i].expires_at is Some && inner@.users[i].expires_at->0
                <= now.unix_nanos ==> answer@ is Invalid
            &&& hash_verifies(inner@.users[i], password) && inner@.users[i].enabled && (
            inner@.users[i].expires_at is Some ==> now.unix_nanos < inner@.users[i].expires_at->0)
                ==> grants(inner@, inner@.users[i], answer@)
        },
{
    let text = username + seq![':'] + password;
    encode_utf8_valid_utf8(text);
    encode_utf8_decode_utf8(text);
    credential_is_read_step_by_step(encode_utf8(text), username, password);
    login_is_answered(inner@, username, password, now@, i);
}

/// The way from the configuration to the answer: a request that sends a declared
/// username and a password to the plugin of the configuration is refused for a
/// password that the declared hash does not verify, for a user declared
/// disabled, or for a declared expiry that is now or past, in this order;
/// otherwise the identity is as declared.
pub proof fn plugin_answers_as_declared(
    config: BasicConfig,
    version: &str,
    code_path: &str,
    plugin: BasicIdentityPlugin,
    headers: &[(String, String)],
    now: Timestamp,
    answer: IdentityResolution,
    username: Seq<char>,
    password: Seq<char>,
    i: int,
)
    requires
        call_ensures(
            BasicIdentityPlugin::from_config_json,
            (Ok::<BasicConfig, serde_json::Error>(config), version, code_path),
            Ok::<BasicIdentityPlugin, ConfigError>(plugin),
        ),
        call_ensures(resolve_with_now, (&*plugin.inner, headers, now), answer),
        sends(header_fields(headers@), username, password),
        is_declared(config@, username, i),
    ensures
        ({
            let entry = config.users@[i];
            let verified = declared_hash_verifies(entry.password_hash@, password);
            &&& !verified ==> answer@ == (ResolutionModel::Invalid { reason: "password mismatch"@ })
            &&& verified && !entry.enabled ==> answer@ == (ResolutionModel::Invalid {
                reason: "user disabled"@,
            })
            &&& verified && entry.enabled && entry.expires_at is Some
                && entry.expires_at->0.unix_nanos <= now.unix_nanos ==> answer@ == (
            ResolutionModel::Invalid { reason: "user expired"@ })
            &&& verified && entry.enabled && (entry.expires_at is Some ==> now.unix_nanos
                < entry.expires_at->0.unix_nanos) ==> (
            answer matches IdentityResolution::Resolved { identity } && is_as_declared(
                config@,
                i,
                identity@,
            ))
        }),
{
    declared_user_is_answered(
        config@,
        header_fields(headers@),
        username,
        password,
        now@,
        i,
    );
}

/// A request is left to the next provider exactly if it shows no Basic
/// credential, whatever the time.
pub proof fn request_falls_through(
    plugin: &BasicIdentityPlugin,
    headers: &[(String, String)],
    answer: IdentityResolution,
)
    requires
        call_ensures(BasicIdentityPlugin::resolve_identity, (plugin, headers), answer),
    ensures
        answer is NoCredential <==> forall|credential: Seq<char>|
            !#[trigger] shows(header_fields(headers@), credential),
{
    let fields = header_fields(headers@);
    let now = choose|now: Timestamp|
        answer@ == resolution(plugin.inner@, fields, #[trigger] now@);
    request_without_credential_falls_through(plugin.inner@, fields, now@);
}

/// An outcome is counted under its own label.
pub proof fn outcome_is_labelled(answer: &IdentityResolution, label: &'static str)
    requires
        call_ensures(resolve_outcome, (answer,), label),
    ensures
        answer is Resolved ==> label@ == "resolved"@,
        answer is NoCredential ==> label@ == "none"@,
        answer is Invalid ==> label@ == "invalid"@,
{
}

/// A message names the fault, with the index, the username or the trust level
/// that the error carries; one of decoding starts by saying so.
pub proof fn error_is_put_into_words(
    error: &ConfigError,
    message: String,
    detail: &str,
    text: String,
)
    requires
        call_ensures(ConfigError::message, (error,), message),
        call_ensures(invalid_json_text, (detail,), text),
    ensures
        text@ == "invalid identity.basic config JSON: "@ + detail@,
        error is InvalidJson ==> "invalid identity.basic config JSON: "@.is_prefix_of(message@),
        error is EmptyUsers ==> message@ == "identity.basic: `users` must be non-empty"@,
        error matches ConfigError::EmptyUsername { index } ==> message@
            == "identity.basic: user["@ + decimal(*index as nat) + "]: username is empty"@,
        error matches ConfigError::EmptyPasswordHash { index } ==> message@
            == "identity.basic: user["@ + decimal(*index as nat) + "]: password_hash is empty"@,
        error matches ConfigError::UnsupportedHashAlgorithm { index, username } ==> message@
            == "identity.basic: user["@ + decimal(*index as nat) + "] (`"@ + username@
            + "`): password_hash does not look like a supported PHC string (must start with $argon2id$, $argon2i$, $argon2d$, $2a$, $2b$, or $2y$). Re-hash via `argon2 -e` or `htpasswd -B`."@,
        error matches ConfigError::DuplicateUsername { username } ==> message@
            == "identity.basic: duplicate username `"@ + username@
            + "` (case-folded under `username_case: insensitive`); set `username_case: sensitive` if Alice and alice are genuinely different users."@,
        error matches ConfigError::InvalidTrustLevel { value } ==> message@
            == "identity.basic: invalid trust_level `"@ + value@
            + "` (allowed: verified | header_asserted)"@,
{
}

/// The manifest names this plugin, the version of its build and the first
/// segment of its path, and asks for nothing.
pub proof fn manifest_is_made(
    version: &str,
    code_path: &str,
    manifest: PluginManifest,
    segment: &str,
    k: int,
)
    requires
        call_ensures(plugin_manifest, (version, code_path), manifest),
        call_ensures(crate_of_path, (code_path,), segment),
    ensures
        manifest.id@ == "dev.mcpg.identity.basic"@,
        manifest.version@ == version@,
        manifest.name@ == "HTTP Basic Identity Resolver"@,
        manifest.plugin_class == PluginClass::IdentityProvider,
        manifest.protocol_version@ == "1.0"@,
        manifest.license is None,
        manifest.required_capabilities@.len() == 0,
        manifest.tags@.len() == 0,
        manifest.provides@.len() == 0,
        manifest.provides_schemes@.len() == 0,
        manifest.backend_profile is None,
        manifest.module_path_prefix@ == segment@,
        separator_at(code_path@, k) && (forall|j: int|
            0 <= j < k ==> !#[trigger] separator_at(code_path@, j)) ==> segment@
            == code_path@.take(k),
        (forall|j: int| !#[trigger] separator_at(code_path@, j)) ==> segment@ == code_path@,
{
    first_segment_ends_at_the_separator(code_path@, k);
    assert(manifest@.required_capabilities.len() == manifest.required_capabilities@.len());
    assert(manifest@.tags.len() == manifest.tags@.len());
    assert(manifest@.provides.len() == manifest.provides@.len());
    assert(manifest@.provides_schemes.len() == manifest.provides_schemes@.len());
}

} // verus!
