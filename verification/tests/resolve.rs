use argon2::password_hash::SaltString;
use base64::engine::general_purpose::STANDARD as BASE64_STANDARD;
use base64::Engine;
use identity_basic::clock::{deserialize, Timestamp};
use identity_basic::config::{
    default_true, BasicConfig, ConfigError, ResolutionConfig, UserEntry, UsernameCase,
};
use identity_basic::credential::{lookup_header, read_credential, strip_basic_prefix};
use identity_basic::hash::{
    bcrypt_accepts, has_oversized_lanes, usable_params, verify_password, HashKind,
};
use identity_basic::identity::{
    crate_of_path, resolve_outcome, IdentityResolution, PluginClass, PluginIdentity,
};
use identity_basic::plugin::{
    decide, find_user, resolve_decoded, resolve_with_now, BasicIdentityPlugin,
};
use password_hash::PasswordHasher;
use std::collections::BTreeMap;

/// The argon2id hash of the password "hunter2", with a fixed salt.
fn alice_hash_argon2() -> String {
    let salt = SaltString::from_b64("dGVzdHNhbHQwMDAwMDAw").unwrap();
    let argon = argon2::Argon2::default();
    argon.hash_password(b"hunter2", &salt).unwrap().to_string()
}

fn alice_hash_bcrypt() -> String {
    bcrypt::hash("hunter2", 4).unwrap()
}

/// A user entry that names nothing but a username and a hash.
fn entry(username: &str, password_hash: String) -> UserEntry {
    UserEntry {
        username: username.to_string(),
        password_hash,
        enabled: default_true(),
        expires_at: None,
        roles: Vec::new(),
        groups: Vec::new(),
        scopes: Vec::new(),
        attributes: BTreeMap::new(),
    }
}

/// The plugin for one user, with every other setting left at its default.
fn build(user: UserEntry) -> BasicIdentityPlugin {
    build_with(vec![user], UsernameCase::default())
}

fn build_with(users: Vec<UserEntry>, username_case: UsernameCase) -> BasicIdentityPlugin {
    let cfg = BasicConfig {
        users,
        username_case,
        resolution: ResolutionConfig::default(),
    };
    BasicIdentityPlugin::from_config_json(Ok(cfg), "0.1.0", "identity_basic::plugin").unwrap()
}

fn auth_header(creds: &str) -> Vec<(String, String)> {
    let encoded = BASE64_STANDARD.encode(creds.as_bytes());
    vec![("Authorization".into(), format!("Basic {encoded}"))]
}

fn at(text: &str) -> Timestamp {
    deserialize(Some(text.to_string())).unwrap().unwrap()
}

fn now() -> Timestamp {
    at("2026-04-26T00:00:00Z")
}

fn reason(r: IdentityResolution) -> String {
    match r {
        IdentityResolution::Invalid { reason } => reason,
        other => panic!("unexpected: {other:?}"),
    }
}

#[test]
fn resolves_argon2_happy_path() {
    let mut alice = entry("alice", alice_hash_argon2());
    alice.roles = vec!["operator".to_owned()];
    let plugin = build(alice);
    let r = resolve_with_now(&plugin.inner, &auth_header("alice:hunter2"), now());
    match r {
        IdentityResolution::Resolved { identity } => {
            assert_eq!(identity.subject_id.as_deref(), Some("alice"));
            assert_eq!(identity.trust_level, "verified");
            assert_eq!(identity.roles, vec!["operator".to_owned()]);
        }
        other => panic!("unexpected: {other:?}"),
    }
}

#[test]
fn resolves_bcrypt_happy_path() {
    let plugin = build(entry("alice", alice_hash_bcrypt()));
    let r = resolve_with_now(&plugin.inner, &auth_header("alice:hunter2"), now());
    assert!(matches!(r, IdentityResolution::Resolved { .. }));
}

#[test]
fn no_authorization_header_returns_none() {
    let plugin = build(entry("alice", alice_hash_argon2()));
    let r = resolve_with_now(&plugin.inner, &[], now());
    assert!(matches!(r, IdentityResolution::NoCredential));
}

#[test]
fn bearer_scheme_returns_none() {
    let plugin = build(entry("alice", alice_hash_argon2()));
    let r = resolve_with_now(
        &plugin.inner,
        &[("Authorization".into(), "Bearer xyz".into())],
        now(),
    );
    assert!(matches!(r, IdentityResolution::NoCredential));
}

#[test]
fn malformed_base64_returns_invalid() {
    let plugin = build(entry("alice", alice_hash_argon2()));
    let r = resolve_with_now(
        &plugin.inner,
        &[("Authorization".into(), "Basic !!not-base64!!".into())],
        now(),
    );
    match r {
        IdentityResolution::Invalid { reason } => assert!(reason.contains("base64")),
        other => panic!("unexpected: {other:?}"),
    }
}

#[test]
fn no_colon_returns_invalid() {
    let plugin = build(entry("alice", alice_hash_argon2()));
    let r = resolve_with_now(&plugin.inner, &auth_header("alicepasswordnocolon"), now());
    match r {
        IdentityResolution::Invalid { reason } => assert!(reason.contains("no colon")),
        other => panic!("unexpected: {other:?}"),
    }
}

#[test]
fn unknown_user_returns_invalid() {
    let plugin = build(entry("alice", alice_hash_argon2()));
    let r = resolve_with_now(&plugin.inner, &auth_header("bob:hunter2"), now());
    assert_eq!(reason(r), "unknown user");
}

#[test]
fn wrong_password_returns_invalid() {
    let plugin = build(entry("alice", alice_hash_argon2()));
    let r = resolve_with_now(&plugin.inner, &auth_header("alice:wrongpass"), now());
    assert_eq!(reason(r), "password mismatch");
}

#[test]
fn case_insensitive_username_matches() {
    let plugin = build(entry("Alice", alice_hash_argon2()));
    let r = resolve_with_now(&plugin.inner, &auth_header("ALICE:hunter2"), now());
    assert!(matches!(r, IdentityResolution::Resolved { .. }));
}

#[test]
fn case_sensitive_username_rejects_wrong_case() {
    let plugin = build_with(
        vec![entry("Alice", alice_hash_argon2())],
        UsernameCase::Sensitive,
    );
    let r = resolve_with_now(&plugin.inner, &auth_header("alice:hunter2"), now());
    assert_eq!(reason(r), "unknown user");
}

#[test]
fn disabled_user_rejected() {
    let mut alice = entry("alice", alice_hash_argon2());
    alice.enabled = false;
    let plugin = build(alice);
    let r = resolve_with_now(&plugin.inner, &auth_header("alice:hunter2"), now());
    assert_eq!(reason(r), "user disabled");
}

#[test]
fn expired_user_rejected() {
    let mut alice = entry("alice", alice_hash_argon2());
    alice.expires_at = Some(at("2026-01-01T00:00:00Z"));
    let plugin = build(alice);
    let r = resolve_with_now(&plugin.inner, &auth_header("alice:hunter2"), now());
    assert_eq!(reason(r), "user expired");
}

fn identity(r: IdentityResolution) -> PluginIdentity {
    match r {
        IdentityResolution::Resolved { identity } => identity,
        other => panic!("unexpected: {other:?}"),
    }
}

fn authorization(value: &str) -> Vec<(String, String)> {
    vec![("Authorization".into(), value.into())]
}

#[test]
fn every_grant_is_handed_on() {
    let mut alice = entry("Alice", alice_hash_bcrypt());
    alice.roles = vec!["operator".into(), "auditor".into()];
    alice.groups = vec!["sre".into()];
    alice.scopes = vec!["admin.read".into()];
    alice.attributes.insert("tenant".into(), "acme".into());
    let cfg = BasicConfig {
        users: vec![alice],
        username_case: UsernameCase::Insensitive,
        resolution: ResolutionConfig {
            trust_level: "header_asserted".into(),
            auth_provider_label: "basic-partner".into(),
        },
    };
    let plugin =
        BasicIdentityPlugin::from_config_json(Ok(cfg), "0.1.0", "identity_basic::plugin").unwrap();
    let r = resolve_with_now(&plugin.inner, &auth_header("ALICE:hunter2"), now());
    let id = identity(r);
    assert_eq!(id.kind, "header_asserted");
    assert_eq!(id.trust_level, "header_asserted");
    assert_eq!(id.subject_id.as_deref(), Some("alice"));
    assert_eq!(id.auth_provider.as_deref(), Some("basic-partner"));
    assert_eq!(id.issuer, None);
    assert_eq!(id.roles, ["operator", "auditor"]);
    assert_eq!(id.groups, ["sre"]);
    assert_eq!(id.scopes, ["admin.read"]);
    assert_eq!(id.attributes.get("tenant").map(String::as_str), Some("acme"));
    assert_eq!(id.attributes.len(), 1);
}

#[test]
fn subject_keeps_case_when_sensitive() {
    let plugin = build_with(
        vec![entry("Alice", alice_hash_bcrypt())],
        UsernameCase::Sensitive,
    );
    let r = resolve_with_now(&plugin.inner, &auth_header("Alice:hunter2"), now());
    assert_eq!(identity(r).subject_id.as_deref(), Some("Alice"));
}

#[test]
fn folds_usernames_beyond_ascii() {
    let plugin = build(entry("\u{c9}lodie", alice_hash_bcrypt()));
    let r = resolve_with_now(&plugin.inner, &auth_header("\u{e9}LODIE:hunter2"), now());
    assert_eq!(identity(r).subject_id.as_deref(), Some("\u{e9}lodie"));
}

#[test]
fn no_user_shadows_another() {
    let names = ["Carol", "alice", "Bob"];
    let users = names.iter().map(|n| entry(n, alice_hash_bcrypt())).collect();
    let plugin = build_with(users, UsernameCase::Insensitive);
    assert_eq!(plugin.inner.users.len(), 3);
    for (name, user) in names.iter().zip(plugin.inner.users.iter()) {
        assert_eq!(user.raw_username, *name);
        assert_eq!(user.canonical_username, name.to_lowercase());
        assert_eq!(user.hash_kind, HashKind::Bcrypt);
        let found = find_user(&plugin.inner.users, &user.canonical_username).unwrap();
        assert_eq!(found.raw_username, *name);
    }
    assert!(find_user(&plugin.inner.users, &"dave".to_string()).is_none());
}

#[test]
fn without_a_basic_credential_nothing_is_said() {
    let plugin = build(entry("alice", alice_hash_bcrypt()));
    for value in ["", "Basic", "Basic ", "Basicx", "Basic\tYTpi", "B\u{e4}sic YTpi", "Digest x"] {
        let r = resolve_with_now(&plugin.inner, &authorization(value), now());
        assert!(matches!(r, IdentityResolution::NoCredential), "{value}");
    }
}

#[test]
fn scheme_and_header_name_ignore_case() {
    let plugin = build(entry("alice", alice_hash_bcrypt()));
    let encoded = BASE64_STANDARD.encode("alice:hunter2");
    for (name, scheme) in [("authorization", "basic"), ("AUTHORIZATION", "bASIC")] {
        let headers = [(name.to_string(), format!("{scheme} {encoded}"))];
        let r = resolve_with_now(&plugin.inner, &headers, now());
        assert!(matches!(r, IdentityResolution::Resolved { .. }));
    }
    assert_eq!(strip_basic_prefix("bAsIc x y"), Some("x y"));
    assert_eq!(strip_basic_prefix("Basic  x"), Some(" x"));
    assert_eq!(strip_basic_prefix("Basic "), Some(""));
    assert_eq!(strip_basic_prefix("Bearer x"), None);
}

#[test]
fn first_header_of_a_name_counts() {
    let mut headers = authorization("Bearer xyz");
    headers.extend(auth_header("alice:hunter2"));
    assert_eq!(lookup_header(&headers, "authorization"), Some("Bearer xyz"));
    assert_eq!(lookup_header(&headers, "host"), None);
    let plugin = build(entry("alice", alice_hash_bcrypt()));
    let r = resolve_with_now(&plugin.inner, &headers, now());
    assert!(matches!(r, IdentityResolution::NoCredential));
}

#[test]
fn other_headers_do_not_count() {
    let plugin = build(entry("alice", alice_hash_bcrypt()));
    let mut headers = vec![
        ("Host".to_string(), "Basic x".to_string()),
        ("Proxy-Authorization".to_string(), "Basic x".to_string()),
    ];
    headers.extend(auth_header("alice:hunter2"));
    let r = resolve_with_now(&plugin.inner, &headers, now());
    assert!(matches!(r, IdentityResolution::Resolved { .. }));
}

#[test]
fn second_space_is_part_of_the_credential() {
    let plugin = build(entry("alice", alice_hash_bcrypt()));
    let encoded = BASE64_STANDARD.encode("alice:hunter2");
    let r = resolve_with_now(&plugin.inner, &authorization(&format!("Basic  {encoded}")), now());
    assert_eq!(reason(r), "malformed Basic credential (base64)");
}

#[test]
fn cuts_at_the_first_colon() {
    let hash = bcrypt::hash("hun:ter:2", 4).unwrap();
    let plugin = build(entry("alice", hash));
    let r = resolve_with_now(&plugin.inner, &auth_header("alice:hun:ter:2"), now());
    assert!(matches!(r, IdentityResolution::Resolved { .. }));
    assert_eq!(
        read_credential(Ok("\u{fc}:a:b".as_bytes().to_vec())),
        Ok(("\u{fc}".to_string(), "a:b".to_string()))
    );
}

#[test]
fn malformed_credentials_name_their_fault() {
    let error = BASE64_STANDARD.decode("!").unwrap_err();
    assert_eq!(
        read_credential(Err(error)),
        Err("malformed Basic credential (base64)".to_string())
    );
    for (bytes, fault) in [
        (&b"\xff:x"[..], "malformed Basic credential (non-utf8)"),
        (&b"alice"[..], "malformed Basic credential (no colon)"),
        (&b""[..], "malformed Basic credential (no colon)"),
        (&b":hunter2"[..], "empty username"),
        (&b"alice:"[..], "empty password"),
        (&b":"[..], "empty username"),
    ] {
        assert_eq!(read_credential(Ok(bytes.to_vec())), Err(fault.to_string()));
    }
    let plugin = build(entry("alice", alice_hash_bcrypt()));
    let r = resolve_decoded(&plugin.inner, Ok(b"alice:".to_vec()), now());
    assert_eq!(reason(r), "empty password");
}

#[test]
fn non_utf8_credential_is_rejected() {
    let plugin = build(entry("alice", alice_hash_bcrypt()));
    let encoded = BASE64_STANDARD.encode([0xc3, 0x28, b':', b'x']);
    let r = resolve_with_now(&plugin.inner, &authorization(&format!("Basic {encoded}")), now());
    assert_eq!(reason(r), "malformed Basic credential (non-utf8)");
}

#[test]
fn expiry_counts_from_its_own_instant() {
    let expiry = at("2026-01-01T00:00:00Z");
    let mut alice = entry("alice", alice_hash_bcrypt());
    alice.expires_at = Some(expiry);
    let plugin = build(alice);
    let before = Timestamp {
        unix_nanos: expiry.unix_nanos - 1,
    };
    let headers = auth_header("alice:hunter2");
    let r = resolve_with_now(&plugin.inner, &headers, before);
    assert!(matches!(r, IdentityResolution::Resolved { .. }));
    assert_eq!(
        reason(resolve_with_now(&plugin.inner, &headers, expiry)),
        "user expired"
    );
    assert_eq!(
        reason(resolve_with_now(&plugin.inner, &headers, now())),
        "user expired"
    );
}

#[test]
fn account_state_shows_only_behind_the_password() {
    let mut alice = entry("alice", alice_hash_bcrypt());
    alice.enabled = false;
    alice.expires_at = Some(at("2020-01-01T00:00:00Z"));
    let plugin = build(alice);
    let r = resolve_with_now(&plugin.inner, &auth_header("alice:wrongpass"), now());
    assert_eq!(reason(r), "password mismatch");
    let r = resolve_with_now(&plugin.inner, &auth_header("alice:hunter2"), now());
    assert_eq!(reason(r), "user disabled");
    let user = &plugin.inner.users[0];
    assert_eq!(
        reason(decide(&plugin.inner, user, false, now())),
        "password mismatch"
    );
    assert_eq!(
        reason(decide(&plugin.inner, user, true, now())),
        "user disabled"
    );
}

#[test]
fn current_time_decides() {
    let headers = auth_header("alice:hunter2");
    let mut past = entry("alice", alice_hash_bcrypt());
    past.expires_at = Some(at("2024-01-01T00:00:00Z"));
    assert_eq!(reason(build(past).resolve_identity(&headers)), "user expired");
    let mut future = entry("alice", alice_hash_bcrypt());
    future.expires_at = Some(at("9000-01-01T00:00:00Z"));
    let r = build(future).resolve_identity(&headers);
    assert!(matches!(r, IdentityResolution::Resolved { .. }));
    let r = build(entry("alice", alice_hash_bcrypt())).resolve_identity(&[]);
    assert!(matches!(r, IdentityResolution::NoCredential));
}

#[test]
fn instants_are_read_as_nanoseconds() {
    assert_eq!(deserialize(None).unwrap(), None);
    assert_eq!(at("1970-01-01T00:00:01.5Z").unix_nanos, 1_500_000_000);
    assert_eq!(at("1970-01-01T00:00:00-01:00").unix_nanos, 3_600_000_000_000);
    assert_eq!(at("1969-12-31T23:59:59Z").unix_nanos, -1_000_000_000);
    assert!(deserialize(Some("tomorrow".to_string())).is_err());
}

#[test]
fn passwords_are_verified_by_their_algorithm() {
    let argon2 = alice_hash_argon2();
    let bcrypt = alice_hash_bcrypt();
    assert!(verify_password(&argon2, HashKind::Argon2, "hunter2"));
    assert!(!verify_password(&argon2, HashKind::Argon2, "hunter3"));
    assert!(!verify_password(&argon2, HashKind::Bcrypt, "hunter2"));
    assert!(verify_password(&bcrypt, HashKind::Bcrypt, "hunter2"));
    assert!(!verify_password(&bcrypt, HashKind::Bcrypt, "hunter3"));
    assert!(!verify_password(&bcrypt, HashKind::Argon2, "hunter2"));
    assert!(!verify_password("$argon2id$", HashKind::Argon2, "hunter2"));
    assert!(!verify_password("$2b$", HashKind::Bcrypt, "hunter2"));
    assert!(!verify_password("$2b$04$\u{e4}", HashKind::Bcrypt, "hunter2"));
    assert!(bcrypt_accepts(Ok(true)));
    assert!(!bcrypt_accepts(Ok(false)));
    assert!(!bcrypt_accepts(bcrypt::verify("x", "y")));
}

fn params(pairs: &[(&str, &str)]) -> Vec<(String, String)> {
    pairs.iter().map(|(n, v)| (n.to_string(), v.to_string())).collect()
}

#[test]
fn oversized_lanes_match_no_password() {
    for lanes in ["536870912", "4294967295", "99999999999"] {
        let hash = format!("$argon2id$v=19$m=16,t=1,p={lanes}$dGVzdHNhbHQ$Y/p1AcN05PI3DMWP00wbAA");
        assert!(has_oversized_lanes(&params(&[("m", "16"), ("p", lanes)])));
        assert!(!verify_password(&hash, HashKind::Argon2, "hunter2"));
    }
    for lanes in ["1", "99999999", ""] {
        let hash = format!("$argon2id$v=19$m=16,t=1,p={lanes}$dGVzdHNhbHQ$Y/p1AcN05PI3DMWP00wbAA");
        assert!(!has_oversized_lanes(&params(&[("m", "16"), ("p", lanes)])));
        assert!(!verify_password(&hash, HashKind::Argon2, "hunter2"));
    }
    assert!(!has_oversized_lanes(&params(&[("m", "123456789")])));
    assert!(!has_oversized_lanes(&params(&[])));
}

#[test]
fn last_number_of_lanes_counts() {
    assert!(!has_oversized_lanes(&params(&[("p", "123456789"), ("p", "1"), ("m", "16")])));
    assert!(has_oversized_lanes(&params(&[("p", "1"), ("p", "123456789"), ("m", "16")])));

    let hash = alice_hash_argon2();
    assert!(hash.contains(",p=1$"));
    let last_fits = hash.replace(",p=1$", ",p=123456789,p=1$");
    assert!(verify_password(&last_fits, HashKind::Argon2, "hunter2"));
    assert!(!verify_password(&last_fits, HashKind::Argon2, "hunter3"));
    let last_is_oversized = hash.replace(",p=1$", ",p=1,p=123456789$");
    assert!(!verify_password(&last_is_oversized, HashKind::Argon2, "hunter2"));
}

#[test]
fn unreadable_hash_admits_nobody() {
    assert!(usable_params(Ok(params(&[("m", "16"), ("t", "1"), ("p", "1")]))));
    assert!(!usable_params(Ok(params(&[("p", "123456789")]))));
    assert!(!usable_params(Err(password_hash::Error::Password)));

    for hash in ["$argon2id$v=x", "$argon2id$v=19$m=16,t=1,p=1$salt$***", "$2b$04$abc"] {
        let plugin = build(entry("alice", hash.to_string()));
        let r = resolve_with_now(&plugin.inner, &auth_header("alice:hunter2"), now());
        match r {
            IdentityResolution::Invalid { reason } => assert_eq!(reason, "password mismatch"),
            other => panic!("unexpected: {other:?}"),
        }
    }
}

#[test]
fn spelling_of_the_username_does_not_show() {
    let plugin = build(entry("Jos\u{e9}", alice_hash_bcrypt()));
    let answer = |creds: &str| {
        format!("{:?}", resolve_with_now(&plugin.inner, &auth_header(creds), now()))
    };
    for password in ["hunter2", "hunter3", ""] {
        let one = answer(&format!("jos\u{e9}:{password}"));
        let other = answer(&format!("JOS\u{c9}:{password}"));
        assert_eq!(one, other);
    }
    match resolve_with_now(&plugin.inner, &auth_header("JOS\u{c9}:hunter2"), now()) {
        IdentityResolution::Resolved { identity } => {
            assert_eq!(identity.subject_id.as_deref(), Some("jos\u{e9}"));
        }
        other => panic!("unexpected: {other:?}"),
    }
}

#[test]
fn refused_configuration_yields_no_plugin() {
    let cfg = BasicConfig {
        users: vec![entry("alice", "$1$abc$xxx".to_string())],
        username_case: UsernameCase::default(),
        resolution: ResolutionConfig::default(),
    };
    let r = BasicIdentityPlugin::from_config_json(Ok(cfg), "0.1.0", "identity_basic");
    assert!(matches!(
        r,
        Err(ConfigError::UnsupportedHashAlgorithm { index: 0, .. })
    ));
    let error = serde_json::from_str::<serde_json::Value>("[").unwrap_err();
    let r = BasicIdentityPlugin::from_config_json(Err(error), "0.1.0", "identity_basic");
    assert!(matches!(r, Err(ConfigError::InvalidJson(_))));
}

#[test]
fn outcomes_are_counted_by_label() {
    let plugin = build(entry("alice", alice_hash_bcrypt()));
    let label = |headers: &[(String, String)]| {
        resolve_outcome(&resolve_with_now(&plugin.inner, headers, now()))
    };
    assert_eq!(label(&auth_header("alice:hunter2")), "resolved");
    assert_eq!(label(&[]), "none");
    assert_eq!(label(&auth_header("alice:hunter3")), "invalid");
}

#[test]
fn manifest_describes_the_plugin() {
    let plugin = build(entry("alice", alice_hash_bcrypt()));
    let manifest = plugin.manifest();
    assert_eq!(manifest.id, "dev.mcpg.identity.basic");
    assert_eq!(manifest.version, "0.1.0");
    assert_eq!(manifest.name, "HTTP Basic Identity Resolver");
    assert_eq!(manifest.plugin_class, PluginClass::IdentityProvider);
    assert_eq!(manifest.protocol_version, "1.0");
    assert_eq!(manifest.module_path_prefix, "identity_basic");
    assert_eq!(manifest.license, None);
    assert_eq!(manifest.backend_profile, None);
    assert!(manifest.required_capabilities.is_empty());
    assert!(manifest.tags.is_empty());
    assert!(manifest.provides.is_empty());
    assert!(manifest.provides_schemes.is_empty());
    assert_eq!(crate_of_path("a:b::c::d"), "a:b");
    assert_eq!(crate_of_path("::c"), "");
    assert_eq!(crate_of_path("alone"), "alone");
    assert_eq!(crate_of_path("a:::b"), "a");
    assert_eq!(crate_of_path(""), "");
}
