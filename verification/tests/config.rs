use identity_basic::config::{
    default_auth_provider_label, default_true, default_trust_level, invalid_json_text, BasicConfig,
    ConfigError, ResolutionConfig, UserEntry, UsernameCase,
};
use identity_basic::hash::HashKind;
use identity_basic::text::blank;
use std::collections::BTreeMap;

fn argon2_alice_hash() -> &'static str {
    "$argon2id$v=19$m=16,t=1,p=1$dGVzdHNhbHQ$Y/p1AcN05PI3DMWP00wbAA"
}

/// A user entry that names nothing but a username and a hash.
fn entry(username: &str, password_hash: &str) -> UserEntry {
    UserEntry {
        username: username.to_string(),
        password_hash: password_hash.to_string(),
        enabled: default_true(),
        expires_at: None,
        roles: Vec::new(),
        groups: Vec::new(),
        scopes: Vec::new(),
        attributes: BTreeMap::new(),
    }
}

/// A configuration that names nothing but users.
fn config(users: Vec<UserEntry>) -> BasicConfig {
    BasicConfig {
        users,
        username_case: UsernameCase::default(),
        resolution: ResolutionConfig::default(),
    }
}

#[test]
fn parses_minimal_config() {
    let cfg = config(vec![entry("alice", argon2_alice_hash())]);
    let parsed = BasicConfig::parse(Ok(cfg)).unwrap();
    assert_eq!(parsed.users.len(), 1);
    assert_eq!(parsed.users[0].username, "alice");
    assert!(parsed.users[0].enabled);
}

#[test]
fn rejects_empty_users() {
    let cfg = config(vec![]);
    let err = BasicConfig::parse(Ok(cfg)).unwrap_err();
    assert!(matches!(err, ConfigError::EmptyUsers));
}

#[test]
fn rejects_md5_hash() {
    let cfg = config(vec![entry("alice", "$1$abc$xxx")]);
    let err = BasicConfig::parse(Ok(cfg)).unwrap_err();
    match err {
        ConfigError::UnsupportedHashAlgorithm { username, .. } => {
            assert_eq!(username, "alice");
        }
        other => panic!("unexpected: {other:?}"),
    }
}

#[test]
fn rejects_duplicate_username_case_folded() {
    let cfg = config(vec![
        entry("Alice", argon2_alice_hash()),
        entry("alice", argon2_alice_hash()),
    ]);
    let err = BasicConfig::parse(Ok(cfg)).unwrap_err();
    assert!(matches!(err, ConfigError::DuplicateUsername { .. }));
}

#[test]
fn allows_distinct_case_when_sensitive() {
    let mut cfg = config(vec![
        entry("Alice", argon2_alice_hash()),
        entry("alice", argon2_alice_hash()),
    ]);
    cfg.username_case = UsernameCase::Sensitive;
    BasicConfig::parse(Ok(cfg)).unwrap();
}

#[test]
fn rejects_invalid_trust_level() {
    let mut cfg = config(vec![entry("alice", argon2_alice_hash())]);
    cfg.resolution.trust_level = "alien".to_string();
    let err = BasicConfig::parse(Ok(cfg)).unwrap_err();
    match err {
        ConfigError::InvalidTrustLevel { value } => assert_eq!(value, "alien"),
        other => panic!("unexpected: {other:?}"),
    }
}

fn refusal(users: Vec<UserEntry>) -> ConfigError {
    BasicConfig::parse(Ok(config(users))).unwrap_err()
}

#[test]
fn defaults_are_the_documented_ones() {
    assert!(default_true());
    assert_eq!(default_trust_level(), "verified");
    assert_eq!(default_auth_provider_label(), "basic");
    assert_eq!(UsernameCase::default(), UsernameCase::Insensitive);
    let resolution = ResolutionConfig::default();
    assert_eq!(resolution.trust_level, "verified");
    assert_eq!(resolution.auth_provider_label, "basic");
}

#[test]
fn decoding_error_is_handed_on() {
    let error = serde_json::from_str::<serde_json::Value>("{").unwrap_err();
    let text = error.to_string();
    match BasicConfig::parse(Err(error)) {
        Err(ConfigError::InvalidJson(error)) => {
            assert_eq!(error.to_string(), text);
            assert_eq!(
                ConfigError::from(error).message(),
                format!("invalid identity.basic config JSON: {text}")
            );
        }
        other => panic!("unexpected: {other:?}"),
    }
}

#[test]
fn rejects_blank_username() {
    let err = refusal(vec![
        entry("alice", argon2_alice_hash()),
        entry(" \t\u{a0}\u{3000}", argon2_alice_hash()),
    ]);
    assert!(matches!(err, ConfigError::EmptyUsername { index: 1 }));
    assert_eq!(err.message(), "identity.basic: user[1]: username is empty");
}

#[test]
fn rejects_blank_password_hash() {
    let err = refusal(vec![entry("alice", "\n ")]);
    assert!(matches!(err, ConfigError::EmptyPasswordHash { index: 0 }));
    assert_eq!(err.message(), "identity.basic: user[0]: password_hash is empty");
}

#[test]
fn rejects_hash_without_a_supported_prefix() {
    for hash in [
        "x$argon2id$v=19$m=16,t=1,p=1$dGVzdHNhbHQ$Y/p1AcN05PI3DMWP00wbAA",
        " $2b$04$abc",
        "$argon2id",
        "$argon2$x",
        "$2x$04$abc",
        "plain",
    ] {
        match refusal(vec![entry("alice", hash)]) {
            ConfigError::UnsupportedHashAlgorithm { index, username } => {
                assert_eq!((index, username.as_str()), (0, "alice"));
            }
            other => panic!("unexpected: {other:?}"),
        }
    }
}

#[test]
fn detects_each_supported_prefix() {
    for hash in ["$argon2id$x", "$argon2i$x", "$argon2d$x"] {
        assert_eq!(HashKind::detect(hash), Some(HashKind::Argon2));
    }
    for hash in ["$2a$x", "$2b$x", "$2y$x"] {
        assert_eq!(HashKind::detect(hash), Some(HashKind::Bcrypt));
    }
    assert_eq!(HashKind::detect("$2"), None);
}

#[test]
fn reports_the_first_fault() {
    let err = refusal(vec![
        entry("alice", argon2_alice_hash()),
        entry("bob", "$1$abc$xxx"),
        entry("", ""),
    ]);
    assert!(matches!(
        err,
        ConfigError::UnsupportedHashAlgorithm { index: 1, .. }
    ));
    // The trust level is looked at before the users.
    let mut cfg = config(vec![entry("", "")]);
    cfg.resolution.trust_level = "Verified".to_string();
    let err = cfg.validate().unwrap_err();
    assert!(matches!(err, ConfigError::InvalidTrustLevel { .. }));
}

#[test]
fn accepts_both_trust_levels() {
    for level in ["verified", "header_asserted"] {
        let mut cfg = config(vec![entry("alice", argon2_alice_hash())]);
        cfg.resolution.trust_level = level.to_string();
        assert!(cfg.validate().is_ok());
    }
}

#[test]
fn folds_beyond_ascii() {
    let users = vec![
        entry("\u{c9}lodie", argon2_alice_hash()),
        entry("\u{e9}LODIE", argon2_alice_hash()),
    ];
    match refusal(users) {
        ConfigError::DuplicateUsername { username } => assert_eq!(username, "\u{e9}LODIE"),
        other => panic!("unexpected: {other:?}"),
    }
}

#[test]
fn keeping_case_loads_what_folding_loads() {
    let mut cfg = config(vec![
        entry("Alice", argon2_alice_hash()),
        entry("Bob", argon2_alice_hash()),
    ]);
    assert!(cfg.validate().is_ok());
    cfg.username_case = UsernameCase::Sensitive;
    assert!(cfg.validate().is_ok());
    cfg.users.push(entry("Bob", argon2_alice_hash()));
    assert!(matches!(
        cfg.validate().unwrap_err(),
        ConfigError::DuplicateUsername { .. }
    ));
}

#[test]
fn messages_name_the_fault() {
    assert_eq!(
        invalid_json_text("expected value"),
        "invalid identity.basic config JSON: expected value"
    );
    assert_eq!(
        ConfigError::EmptyUsers.message(),
        "identity.basic: `users` must be non-empty"
    );
    assert_eq!(
        ConfigError::EmptyUsername { index: 1203 }.message(),
        "identity.basic: user[1203]: username is empty"
    );
    assert_eq!(
        ConfigError::UnsupportedHashAlgorithm {
            index: 7,
            username: "alice".to_string()
        }
        .message(),
        "identity.basic: user[7] (`alice`): password_hash does not look like a supported PHC \
         string (must start with $argon2id$, $argon2i$, $argon2d$, $2a$, $2b$, or $2y$). \
         Re-hash via `argon2 -e` or `htpasswd -B`."
    );
    assert_eq!(
        ConfigError::DuplicateUsername {
            username: "alice".to_string()
        }
        .message(),
        "identity.basic: duplicate username `alice` (case-folded under \
         `username_case: insensitive`); set `username_case: sensitive` if Alice and alice are \
         genuinely different users."
    );
    assert_eq!(
        ConfigError::InvalidTrustLevel {
            value: "alien".to_string()
        }
        .message(),
        "identity.basic: invalid trust_level `alien` (allowed: verified | header_asserted)"
    );
}

#[test]
fn blank_means_white_space_only() {
    assert!(blank(""));
    assert!(blank(" \t\r\n"));
    assert!(!blank(" a "));
    for code in 0..=0x10ffffu32 {
        let white = matches!(
            code,
            0x09..=0x0d | 0x20 | 0x85 | 0xa0 | 0x1680 | 0x2000..=0x200a | 0x2028 | 0x2029 | 0x202f
                | 0x205f | 0x3000
        );
        if let Some(c) = char::from_u32(code) {
            assert_eq!(blank(c.to_string().as_str()), white, "{code:x}");
        }
    }
}
