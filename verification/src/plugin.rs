//! The user registry, and the resolution of a request against it.

use crate::clock::{now_utc, Timestamp};
use crate::config::{
    canonical, canonical_username, config_fault, known_trust_level, optional_nanos, BasicConfig,
    ConfigError, ConfigModel, ResolutionConfig, UserEntry, UserModel, UsernameCase,
};
use crate::credential::{
    base64_decode, base64_decoded, basic_credential, credential_parts, decoded_bytes,
    header_fields, presented, read_credential,
};
use crate::hash::{hash_kind_of, password_matches, verify_password, HashKind};
use crate::identity::{
    manifest_model, plugin_manifest, IdentityModel, IdentityResolution, PluginIdentity,
    PluginManifest, ResolutionModel,
};
use crate::laws::validated_config_compiles;
use std::collections::BTreeMap;
use std::sync::Arc;
use vstd::prelude::*;
use vstd::string::*;
use vstd::utf8::*;

verus! {

/// A user as the registry holds it: the name under which it is looked up and
/// the algorithm of its hash are worked out once.
pub struct CompiledUser {
    pub canonical_username: String,
    pub raw_username: String,
    pub password_hash: String,
    pub hash_kind: HashKind,
    pub enabled: bool,
    pub expires_at: Option<Timestamp>,
    pub roles: Vec<String>,
    pub groups: Vec<String>,
    pub scopes: Vec<String>,
    pub attributes: BTreeMap<String, String>,
}

/// The registry, with what a resolution needs besides.
pub struct Inner {
    pub manifest: PluginManifest,
    pub users: Vec<CompiledUser>,
    pub username_case: UsernameCase,
    pub resolution: ResolutionConfig,
}

/// Resolves callers by HTTP Basic authentication.
pub struct BasicIdentityPlugin {
    pub inner: Arc<Inner>,
}

/// A registered user, as texts and numbers.
#[verifier::ext_equal]
pub struct CompiledModel {
    pub canonical_username: Seq<char>,
    pub raw_username: Seq<char>,
    pub password_hash: Seq<char>,
    pub hash_kind: HashKind,
    pub enabled: bool,
    pub expires_at: Option<int>,
    pub roles: Seq<Seq<char>>,
    pub groups: Seq<Seq<char>>,
    pub scopes: Seq<Seq<char>>,
    pub attributes: Map<String, String>,
}

/// A registry, as texts and numbers.
#[verifier::ext_equal]
pub struct RegistryModel {
    pub users: Seq<CompiledModel>,
    pub username_case: UsernameCase,
    pub trust_level: Seq<char>,
    pub auth_provider_label: Seq<char>,
}

impl View for CompiledUser {
    type V = CompiledModel;

    open spec fn view(&self) -> CompiledModel {
        CompiledModel {
            canonical_username: self.canonical_username@,
            raw_username: self.raw_username@,
            password_hash: self.password_hash@,
            hash_kind: self.hash_kind,
            enabled: self.enabled,
            expires_at: optional_nanos(self.expires_at),
            roles: self.roles.deep_view(),
            groups: self.groups.deep_view(),
            scopes: self.scopes.deep_view(),
            attributes: self.attributes@,
        }
    }
}

/// The users of a registry, as texts and numbers.
pub open spec fn user_models(users: Seq<CompiledUser>) -> Seq<CompiledModel> {
    users.map_values(|user: CompiledUser| user@)
}

impl View for Inner {
    type V = RegistryModel;

    open spec fn view(&self) -> RegistryModel {
        RegistryModel {
            users: user_models(self.users@),
            username_case: self.username_case,
            trust_level: self.resolution.trust_level@,
            auth_provider_label: self.resolution.auth_provider_label@,
        }
    }
}

/// A declared user as the registry holds it.
pub open spec fn compiled_user(case: UsernameCase, user: UserModel) -> CompiledModel {
    CompiledModel {
        canonical_username: canonical(case, user.username),
        raw_username: user.username,
        password_hash: user.password_hash,
        hash_kind: hash_kind_of(user.password_hash)->0,
        enabled: user.enabled,
        expires_at: user.expires_at,
        roles: user.roles,
        groups: user.groups,
        scopes: user.scopes,
        attributes: user.attributes,
    }
}

/// The registry of a configuration: its users, in the order of declaration.
pub open spec fn compiled_registry(config: ConfigModel) -> RegistryModel {
    RegistryModel {
        users: config.users.map_values(
            |user: UserModel| compiled_user(config.username_case, user),
        ),
        username_case: config.username_case,
        trust_level: config.trust_level,
        auth_provider_label: config.auth_provider_label,
    }
}

/// Every hash string of a configuration is of a supported algorithm.
pub open spec fn hashes_supported(config: ConfigModel) -> bool {
    forall|i: int|
        0 <= i < config.users.len() ==> hash_kind_of(
            (#[trigger] config.users[i]).password_hash,
        ) is Some
}

/// A registry as a loaded configuration yields it: a known trust level, every
/// user under its canonical name and with the algorithm of its hash, and no two
/// users under one name.
pub open spec fn well_formed(registry: RegistryModel) -> bool {
    &&& known_trust_level(registry.trust_level)
    &&& forall|i: int|
        0 <= i < registry.users.len() ==> {
            let user = #[trigger] registry.users[i];
            &&& user.canonical_username == canonical(registry.username_case, user.raw_username)
            &&& hash_kind_of(user.password_hash) == Some(user.hash_kind)
        }
    &&& forall|i: int, j: int|
        0 <= i < j < registry.users.len() ==> (#[trigger] registry.users[i]).canonical_username
            != (#[trigger] registry.users[j]).canonical_username
}

/// The first user that is looked up under `name`.
pub open spec fn user_named(users: Seq<CompiledModel>, name: Seq<char>) -> Option<CompiledModel>
    decreases users.len(),
{
    if users.len() == 0 {
        None
    } else if users[0].canonical_username == name {
        Some(users[0])
    } else {
        user_named(users.drop_first(), name)
    }
}

/// The identity that a registry gives one of its users.
pub open spec fn identity_of(registry: RegistryModel, user: CompiledModel) -> IdentityModel {
    IdentityModel {
        kind: registry.trust_level,
        trust_level: registry.trust_level,
        subject_id: Some(
            match registry.username_case {
                UsernameCase::Insensitive => user.canonical_username,
                UsernameCase::Sensitive => user.raw_username,
            },
        ),
        auth_provider: Some(registry.auth_provider_label),
        issuer: None,
        roles: user.roles,
        groups: user.groups,
        scopes: user.scopes,
        attributes: user.attributes,
    }
}

/// An account has run out: its expiry is not after `now`.
pub open spec fn expired(user: CompiledModel, now: int) -> bool {
    user.expires_at matches Some(expiry) && expiry <= now
}

/// The outcome for a registered user, given whether the password matched.
pub open spec fn admission(
    registry: RegistryModel,
    user: CompiledModel,
    matched: bool,
    now: int,
) -> ResolutionModel {
    if !matched {
        ResolutionModel::Invalid { reason: "password mismatch"@ }
    } else if !user.enabled {
        ResolutionModel::Invalid { reason: "user disabled"@ }
    } else if expired(user, now) {
        ResolutionModel::Invalid { reason: "user expired"@ }
    } else {
        ResolutionModel::Resolved { identity: identity_of(registry, user) }
    }
}

/// The outcome for a username and a password.
pub open spec fn login(
    registry: RegistryModel,
    username: Seq<char>,
    password: Seq<char>,
    now: int,
) -> ResolutionModel {
    match user_named(registry.users, canonical(registry.username_case, username)) {
        None => ResolutionModel::Invalid { reason: "unknown user"@ },
        Some(user) => admission(
            registry,
            user,
            password_matches(user.password_hash, user.hash_kind, password),
            now,
        ),
    }
}

/// The outcome for a presented credential, given what it decodes to.
pub open spec fn decoded_resolution(
    registry: RegistryModel,
    decoded: Option<Seq<u8>>,
    now: int,
) -> ResolutionModel {
    match credential_parts(decoded) {
        Err(reason) => ResolutionModel::Invalid { reason },
        Ok((username, password)) => login(registry, username, password, now),
    }
}

/// The outcome for a request.
pub open spec fn resolution(
    registry: RegistryModel,
    fields: Seq<(Seq<char>, Seq<char>)>,
    now: int,
) -> ResolutionModel {
    match presented(fields) {
        None => ResolutionModel::NoCredential,
        Some(credential) => decoded_resolution(
            registry,
            base64_decoded(encode_utf8(credential)),
            now,
        ),
    }
}

impl BasicIdentityPlugin {
    /// Builds the plugin from a decoded configuration. A configuration that
    /// does not validate yields no plugin.
    pub fn from_config_json(
        decoded: Result<BasicConfig, serde_json::Error>,
        version: &str,
        code_path: &str,
    ) -> (r: Result<Self, ConfigError>)
        ensures
            match decoded {
                Err(error) => r == Err::<Self, ConfigError>(ConfigError::InvalidJson(error)),
                Ok(config) => match config_fault(config@) {
                    Some(fault) => r matches Err(error) && error.fault() == Some(fault),
                    None => r matches Ok(plugin) && plugin.inner@ == compiled_registry(config@)
                        && plugin.inner.manifest@ == manifest_model(version@, code_path@)
                        && well_formed(plugin.inner@),
                },
            },
    {
        match BasicConfig::parse(decoded) {
            Ok(config) => {
                proof {
                    validated_config_compiles(config@);
                }
                Ok(Self::from_validated_config(config, version, code_path))
            },
            Err(error) => Err(error),
        }
    }

    /// Compiles a configuration whose hashes are all of supported algorithms.
    pub fn from_validated_config(config: BasicConfig, version: &str, code_path: &str) -> (plugin:
        Self)
        requires
            hashes_supported(config@),
        ensures
            plugin.inner@ == compiled_registry(config@),
            plugin.inner.manifest@ == manifest_model(version@, code_path@),
    {
        let ghost model = config@;
        let username_case = config.username_case;
        let mut users: Vec<CompiledUser> = Vec::new();
        for entry in it: config.users
            invariant
                it.seq() == config.users@,
                model == config@,
                hashes_supported(model),
                username_case == model.username_case,
                users@.len() == it.index(),
                forall|j: int|
                    0 <= j < users@.len() ==> (#[trigger] users@[j])@ == compiled_user(
                        username_case,
                        model.users[j],
                    ),
        {
            assert(model.users[it.index() as int] == entry@);
            users.push(compile_user(username_case, entry));
        }
        let inner = Inner {
            manifest: plugin_manifest(version, code_path),
            users,
            username_case,
            resolution: config.resolution,
        };
        BasicIdentityPlugin { inner: Arc::new(inner) }
    }
}

/// Brings a declared user into the form that the registry holds.
pub fn compile_user(case: UsernameCase, user: UserEntry) -> (r: CompiledUser)
    requires
        hash_kind_of(user.password_hash@) is Some,
    ensures
        r@ == compiled_user(case, user@),
{
    let hash_kind = HashKind::detect(user.password_hash.as_str()).unwrap();
    CompiledUser {
        canonical_username: canonical_username(case, user.username.as_str()),
        raw_username: user.username,
        password_hash: user.password_hash,
        hash_kind,
        enabled: user.enabled,
        expires_at: user.expires_at,
        roles: user.roles,
        groups: user.groups,
        scopes: user.scopes,
        attributes: user.attributes,
    }
}

/// Copies a list of texts.
fn copy_texts(texts: &Vec<String>) -> (copy: Vec<String>)
    ensures
        copy.deep_view() == texts.deep_view(),
{
    let copy = texts.clone();
    copy
}

/// Finds the first user that is looked up under `name`.
pub fn find_user<'a>(users: &'a Vec<CompiledUser>, name: &String) -> (user: Option<
    &'a CompiledUser,
>)
    ensures
        match user {
            Some(user) => user_named(user_models(users@), name@) == Some(user@),
            None => user_named(user_models(users@), name@) is None,
        },
{
    let ghost models = user_models(users@);
    let mut i: usize = 0;
    assert(models.skip(0) =~= models);
    while i < users.len()
        invariant
            i <= users@.len(),
            models == user_models(users@),
            user_named(models, name@) == user_named(models.skip(i as int), name@),
        decreases users@.len() - i,
    {
        let user = &users[i];
        assert(models.skip(i as int).drop_first() =~= models.skip(i + 1));
        if user.canonical_username == *name {
            return Some(user);
        }
        i += 1;
    }
    None
}

/// Decides about a registered user, given whether the password matched. The
/// state of the account is looked at only behind a matching password.
pub fn decide(inner: &Inner, user: &CompiledUser, matched: bool, now: Timestamp) -> (r:
    IdentityResolution)
    ensures
        r@ == admission(inner@, user@, matched, now@),
{
    if !matched {
        return IdentityResolution::Invalid { reason: "password mismatch".to_owned() };
    }
    if !user.enabled {
        return IdentityResolution::Invalid { reason: "user disabled".to_owned() };
    }
    if let Some(expires_at) = user.expires_at {
        if expires_at.unix_nanos <= now.unix_nanos {
            return IdentityResolution::Invalid { reason: "user expired".to_owned() };
        }
    }
    let subject_id = match inner.username_case {
        UsernameCase::Insensitive => user.canonical_username.clone(),
        UsernameCase::Sensitive => user.raw_username.clone(),
    };
    let identity = PluginIdentity {
        kind: inner.resolution.trust_level.clone(),
        trust_level: inner.resolution.trust_level.clone(),
        subject_id: Some(subject_id),
        auth_provider: Some(inner.resolution.auth_provider_label.clone()),
        issuer: None,
        roles: copy_texts(&user.roles),
        groups: copy_texts(&user.groups),
        scopes: copy_texts(&user.scopes),
        attributes: user.attributes.clone(),
    };
    IdentityResolution::Resolved { identity }
}

/// Resolves a presented credential, given what it decodes to.
pub fn resolve_decoded(
    inner: &Inner,
    decoded: Result<Vec<u8>, base64::DecodeError>,
    now: Timestamp,
) -> (r: IdentityResolution)
    ensures
        r@ == decoded_resolution(inner@, decoded_bytes(decoded), now@),
{
    let (username, password) = match read_credential(decoded) {
        Ok(parts) => parts,
        Err(reason) => {
            return IdentityResolution::Invalid { reason };
        },
    };
    let name = canonical_username(inner.username_case, username.as_str());
    match find_user(&inner.users, &name) {
        None => IdentityResolution::Invalid { reason: "unknown user".to_owned() },
        Some(user) => {
            let matched = verify_password(
                user.password_hash.as_str(),
                user.hash_kind,
                password.as_str(),
            );
            decide(inner, user, matched, now)
        },
    }
}

/// Resolves a request, at the given time.
pub fn resolve_with_now(inner: &Inner, headers: &[(String, String)], now: Timestamp) -> (r:
    IdentityResolution)
    ensures
        r@ == resolution(inner@, header_fields(headers@), now@),
{
    match basic_credential(headers) {
        None => IdentityResolution::NoCredential,
        Some(credential) => resolve_decoded(inner, base64_decode(credential.as_bytes()), now),
    }
}

impl BasicIdentityPlugin {
    /// What the plugin says of itself.
    pub fn manifest(&self) -> (manifest: &PluginManifest)
        ensures
            *manifest == self.inner.manifest,
    {
        &self.inner.manifest
    }

    /// Resolves a request, at the current time.
    pub fn resolve_identity(&self, headers: &[(String, String)]) -> (r: IdentityResolution)
        ensures
            exists|now: Timestamp|
                r@ == resolution(self.inner@, header_fields(headers@), #[trigger] now@),
    {
        let now = now_utc();
        let r = resolve_with_now(&self.inner, headers, now);
        r
    }
}

} // verus!
