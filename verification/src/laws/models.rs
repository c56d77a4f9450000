//! Models: the contracts speak of values as they are, with nothing left out.

use crate::clock::Timestamp;
use crate::config::{BasicConfig, ConfigError, ConfigFault, UserEntry};
use crate::credential::{decoded_bytes, header_fields, parts_view};
use crate::identity::{IdentityResolution, PluginIdentity, PluginManifest, ResolutionModel};
use crate::plugin::{user_models, CompiledUser, Inner};
use vstd::prelude::*;
use vstd::string::*;

verus! {

/// The texts of a list of strings, all of them and in their order.
pub open spec fn are_texts_of(texts: Seq<Seq<char>>, strings: Seq<String>) -> bool {
    &&& texts.len() == strings.len()
    &&& forall|i: int| 0 <= i < strings.len() ==> #[trigger] texts[i] == strings[i]@
}

/// The text of an optional string, where there is one.
pub open spec fn is_text_of(text: Option<Seq<char>>, string: Option<String>) -> bool {
    match string {
        Some(string) => text == Some(string@),
        None => text is None,
    }
}

/// The nanoseconds of an optional point in time, where there is one.
pub open spec fn are_nanos_of(nanos: Option<int>, instant: Option<Timestamp>) -> bool {
    match instant {
        Some(instant) => nanos == Some(instant.unix_nanos as int),
        None => nanos is None,
    }
}

/// A point in time is its number of nanoseconds.
pub proof fn timestamp_is_its_nanoseconds(instant: Timestamp)
    ensures
        instant@ == instant.unix_nanos,
{
}

/// A declared user is modelled field by field.
pub proof fn entry_is_modelled_as_it_is(user: UserEntry)
    ensures
        user@.username == user.username@,
        user@.password_hash == user.password_hash@,
        user@.enabled == user.enabled,
        are_nanos_of(user@.expires_at, user.expires_at),
        are_texts_of(user@.roles, user.roles@),
        are_texts_of(user@.groups, user.groups@),
        are_texts_of(user@.scopes, user.scopes@),
        user@.attributes == user.attributes@,
{
}

/// A configuration is modelled with all of its users, in their order.
pub proof fn configuration_is_modelled_as_it_is(config: BasicConfig)
    ensures
        config@.users.len() == config.users@.len(),
        forall|i: int|
            0 <= i < config.users@.len() ==> #[trigger] config@.users[i] == config.users@[i]@,
        config@.username_case == config.username_case,
        config@.trust_level == config.resolution.trust_level@,
        config@.auth_provider_label == config.resolution.auth_provider_label@,
{
}

/// A registered user is modelled field by field.
pub proof fn registered_user_is_modelled_as_it_is(user: CompiledUser)
    ensures
        user@.canonical_username == user.canonical_username@,
        user@.raw_username == user.raw_username@,
        user@.password_hash == user.password_hash@,
        user@.hash_kind == user.hash_kind,
        user@.enabled == user.enabled,
        are_nanos_of(user@.expires_at, user.expires_at),
        are_texts_of(user@.roles, user.roles@),
        are_texts_of(user@.groups, user.groups@),
        are_texts_of(user@.scopes, user.scopes@),
        user@.attributes == user.attributes@,
{
}

/// A registry is modelled with all of its users, in their order.
pub proof fn registry_is_modelled_as_it_is(inner: Inner)
    ensures
        inner@.users.len() == inner.users@.len(),
        forall|i: int|
            0 <= i < inner.users@.len() ==> #[trigger] inner@.users[i] == inner.users@[i]@,
        inner@.username_case == inner.username_case,
        inner@.trust_level == inner.resolution.trust_level@,
        inner@.auth_provider_label == inner.resolution.auth_provider_label@,
        user_models(inner.users@) == inner@.users,
{
}

/// The fields of a request are its headers, all of them and in their order.
pub proof fn headers_are_modelled_as_they_are(headers: Seq<(String, String)>)
    ensures
        header_fields(headers).len() == headers.len(),
        forall|i: int|
            0 <= i < headers.len() ==> (#[trigger] header_fields(headers)[i]).0 == headers[i].0@
                && header_fields(headers)[i].1 == headers[i].1@,
{
}

/// An identity is modelled field by field.
pub proof fn identity_is_modelled_as_it_is(identity: PluginIdentity)
    ensures
        identity@.kind == identity.kind@,
        identity@.trust_level == identity.trust_level@,
        is_text_of(identity@.subject_id, identity.subject_id),
        is_text_of(identity@.auth_provider, identity.auth_provider),
        is_text_of(identity@.issuer, identity.issuer),
        are_texts_of(identity@.roles, identity.roles@),
        are_texts_of(identity@.groups, identity.groups@),
        are_texts_of(identity@.scopes, identity.scopes@),
        identity@.attributes == identity.attributes@,
{
}

/// An answer is modelled as what it is: the identity, the reason, or neither.
pub proof fn answer_is_modelled_as_it_is(answer: IdentityResolution)
    ensures
        answer matches IdentityResolution::Resolved { identity } ==> answer@ == (
        ResolutionModel::Resolved { identity: identity@ }),
        answer is NoCredential ==> answer@ is NoCredential,
        answer matches IdentityResolution::Invalid { reason } ==> answer@ == (
        ResolutionModel::Invalid { reason: reason@ }),
{
}

/// A manifest is modelled field by field.
pub proof fn manifest_is_modelled_as_it_is(manifest: PluginManifest)
    ensures
        manifest@.id == manifest.id@,
        manifest@.version == manifest.version@,
        manifest@.name == manifest.name@,
        manifest@.plugin_class == manifest.plugin_class,
        manifest@.protocol_version == manifest.protocol_version@,
        is_text_of(manifest@.license, manifest.license),
        are_texts_of(manifest@.required_capabilities, manifest.required_capabilities@),
        are_texts_of(manifest@.tags, manifest.tags@),
        are_texts_of(manifest@.provides, manifest.provides@),
        are_texts_of(manifest@.provides_schemes, manifest.provides_schemes@),
        manifest@.module_path_prefix == manifest.module_path_prefix@,
        is_text_of(manifest@.backend_profile, manifest.backend_profile),
{
}

/// What is read out of a credential is modelled as what it is: the bytes that
/// were decoded, and the two texts or the reason.
pub proof fn reading_is_modelled_as_it_is(
    decoded: Result<Vec<u8>, base64::DecodeError>,
    parts: Result<(String, String), String>,
)
    ensures
        decoded matches Ok(bytes) ==> decoded_bytes(decoded) == Some(bytes@),
        decoded is Err ==> decoded_bytes(decoded) is None,
        parts matches Ok(texts) ==> parts_view(parts) == Ok::<(Seq<char>, Seq<char>), Seq<char>>(
            (texts.0@, texts.1@),
        ),
        parts matches Err(reason) ==> parts_view(parts) == Err::<(Seq<char>, Seq<char>), Seq<char>>(
            reason@,
        ),
{
}

/// An error reports the fault that it is named after, with its own index and
/// text; an error of decoding reports none.
pub proof fn error_reports_its_fault(error: ConfigError)
    ensures
        error is InvalidJson <==> error.fault() is None,
        error is EmptyUsers <==> error.fault() == Some(ConfigFault::EmptyUsers),
        error matches ConfigError::EmptyUsername { index } ==> error.fault() == Some(
            ConfigFault::EmptyUsername { index: index as int },
        ),
        error matches ConfigError::EmptyPasswordHash { index } ==> error.fault() == Some(
            ConfigFault::EmptyPasswordHash { index: index as int },
        ),
        error matches ConfigError::UnsupportedHashAlgorithm { index, username } ==> error.fault()
            == Some(
            ConfigFault::UnsupportedHashAlgorithm { index: index as int, username: username@ },
        ),
        error matches ConfigError::DuplicateUsername { username } ==> error.fault() == Some(
            ConfigFault::DuplicateUsername { username: username@ },
        ),
        error matches ConfigError::InvalidTrustLevel { value } ==> error.fault() == Some(
            ConfigFault::InvalidTrustLevel { value: value@ },
        ),
{
}

} // verus!
