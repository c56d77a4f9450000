//! The operator's configuration: its types, their defaults and its validation.

use crate::clock::Timestamp;
use crate::hash::{hash_kind_of, HashKind};
use crate::text::{blank, is_blank, lowers_to, same_text, unicode_lowercase};
use std::collections::BTreeMap;
use vstd::prelude::*;
use vstd::string::*;

verus! {

/// The whole configuration.
#[derive(Debug, Clone)]
pub struct BasicConfig {
    pub users: Vec<UserEntry>,
    pub username_case: UsernameCase,
    pub resolution: ResolutionConfig,
}

/// Whether lookups and duplicate detection fold the case of usernames.
#[derive(Debug, Clone, Copy, PartialEq, Eq, Structural)]
pub enum UsernameCase {
    Insensitive,
    Sensitive,
}

impl Default for UsernameCase {
    fn default() -> (case: Self)
        ensures
            case == UsernameCase::Insensitive,
    {
        UsernameCase::Insensitive
    }
}

/// One declared user.
#[derive(Debug, Clone)]
pub struct UserEntry {
    pub username: String,
    /// A hash string of a supported algorithm, never a password.
    pub password_hash: String,
    pub enabled: bool,
    pub expires_at: Option<Timestamp>,
    pub roles: Vec<String>,
    pub groups: Vec<String>,
    pub scopes: Vec<String>,
    pub attributes: BTreeMap<String, String>,
}

/// Whether a user is enabled where the configuration does not say.
pub fn default_true() -> (enabled: bool)
    ensures
        enabled,
{
    true
}

/// What a resolved identity carries for every user alike.
#[derive(Debug, Clone)]
pub struct ResolutionConfig {
    /// The trust level of a caller whose password was verified.
    pub trust_level: String,
    /// The `auth_provider` of a resolved identity.
    pub auth_provider_label: String,
}

impl Default for ResolutionConfig {
    fn default() -> (resolution: Self)
        ensures
            resolution.trust_level@ == "verified"@,
            resolution.auth_provider_label@ == "basic"@,
    {
        ResolutionConfig {
            trust_level: default_trust_level(),
            auth_provider_label: default_auth_provider_label(),
        }
    }
}

/// The trust level where the configuration names none.
pub fn default_trust_level() -> (level: String)
    ensures
        level@ == "verified"@,
{
    "verified".to_owned()
}

/// The provider label where the configuration names none.
pub fn default_auth_provider_label() -> (label: String)
    ensures
        label@ == "basic"@,
{
    "basic".to_owned()
}

/// A declared user, as texts and numbers.
#[verifier::ext_equal]
pub struct UserModel {
    pub username: Seq<char>,
    pub password_hash: Seq<char>,
    pub enabled: bool,
    pub expires_at: Option<int>,
    pub roles: Seq<Seq<char>>,
    pub groups: Seq<Seq<char>>,
    pub scopes: Seq<Seq<char>>,
    pub attributes: Map<String, String>,
}

/// A configuration, as texts and numbers.
#[verifier::ext_equal]
pub struct ConfigModel {
    pub users: Seq<UserModel>,
    pub username_case: UsernameCase,
    pub trust_level: Seq<char>,
    pub auth_provider_label: Seq<char>,
}

/// The number of nanoseconds of an optional point in time.
pub open spec fn optional_nanos(instant: Option<Timestamp>) -> Option<int> {
    match instant {
        None => None,
        Some(instant) => Some(instant@),
    }
}

impl View for UserEntry {
    type V = UserModel;

    open spec fn view(&self) -> UserModel {
        UserModel {
            username: self.username@,
            password_hash: self.password_hash@,
            enabled: self.enabled,
            expires_at: optional_nanos(self.expires_at),
            roles: self.roles.deep_view(),
            groups: self.groups.deep_view(),
            scopes: self.scopes.deep_view(),
            attributes: self.attributes@,
        }
    }
}

impl View for BasicConfig {
    type V = ConfigModel;

    open spec fn view(&self) -> ConfigModel {
        ConfigModel {
            users: self.users@.map_values(|user: UserEntry| user@),
            username_case: self.username_case,
            trust_level: self.resolution.trust_level@,
            auth_provider_label: self.resolution.auth_provider_label@,
        }
    }
}

/// The form of a username under which it is looked up.
pub open spec fn canonical(case: UsernameCase, username: Seq<char>) -> Seq<char> {
    match case {
        UsernameCase::Insensitive => unicode_lowercase(username),
        UsernameCase::Sensitive => username,
    }
}

/// Brings a username into the form under which it is looked up.
pub fn canonical_username(case: UsernameCase, username: &str) -> (r: String)
    ensures
        r@ == canonical(case, username@),
        case == UsernameCase::Insensitive ==> lowers_to(username@, r@),
{
    match case {
        UsernameCase::Insensitive => username.to_lowercase(),
        UsernameCase::Sensitive => username.to_owned(),
    }
}

/// The trust levels that there are.
pub open spec fn known_trust_level(level: Seq<char>) -> bool {
    level == "verified"@ || level == "header_asserted"@
}

/// What validation can find wrong with a configuration.
pub enum ConfigFault {
    EmptyUsers,
    InvalidTrustLevel { value: Seq<char> },
    EmptyUsername { index: int },
    EmptyPasswordHash { index: int },
    UnsupportedHashAlgorithm { index: int, username: Seq<char> },
    DuplicateUsername { username: Seq<char> },
}

/// A user declared before the one at `index` has the same canonical name.
pub open spec fn repeats_earlier(users: Seq<UserModel>, case: UsernameCase, index: int) -> bool {
    exists|j: int|
        0 <= j < index && #[trigger] canonical(case, users[j].username) == canonical(
            case,
            users[index].username,
        )
}

/// What is wrong with the user at `index`, the users before it given.
pub open spec fn user_fault(users: Seq<UserModel>, case: UsernameCase, index: int) -> Option<
    ConfigFault,
> {
    let user = users[index];
    if is_blank(user.username) {
        Some(ConfigFault::EmptyUsername { index })
    } else if is_blank(user.password_hash) {
        Some(ConfigFault::EmptyPasswordHash { index })
    } else if hash_kind_of(user.password_hash) is None {
        Some(ConfigFault::UnsupportedHashAlgorithm { index, username: user.username })
    } else if repeats_earlier(users, case, index) {
        Some(ConfigFault::DuplicateUsername { username: user.username })
    } else {
        None
    }
}

/// The first thing that is wrong with the users from `index` on.
pub open spec fn users_fault(users: Seq<UserModel>, case: UsernameCase, index: int) -> Option<
    ConfigFault,
>
    decreases users.len() - index,
{
    if index >= users.len() {
        None
    } else {
        match user_fault(users, case, index) {
            Some(fault) => Some(fault),
            None => users_fault(users, case, index + 1),
        }
    }
}

/// The first thing that is wrong with a configuration.
pub open spec fn config_fault(config: ConfigModel) -> Option<ConfigFault> {
    if config.users.len() == 0 {
        Some(ConfigFault::EmptyUsers)
    } else if !known_trust_level(config.trust_level) {
        Some(ConfigFault::InvalidTrustLevel { value: config.trust_level })
    } else {
        users_fault(config.users, config.username_case, 0)
    }
}

/// The error of `serde_json` for a text that it cannot decode.
#[verifier::external_type_specification]
#[verifier::external_body]
pub struct ExJsonError(serde_json::Error);

/// Why a configuration is refused.
#[derive(Debug)]
pub enum ConfigError {
    InvalidJson(serde_json::Error),
    EmptyUsers,
    EmptyUsername { index: usize },
    EmptyPasswordHash { index: usize },
    UnsupportedHashAlgorithm { index: usize, username: String },
    DuplicateUsername { username: String },
    InvalidTrustLevel { value: String },
}

impl ConfigError {
    /// The fault of validation that an error reports; `None` for an error of
    /// decoding.
    pub open spec fn fault(self) -> Option<ConfigFault> {
        match self {
            ConfigError::InvalidJson(_) => None,
            ConfigError::EmptyUsers => Some(ConfigFault::EmptyUsers),
            ConfigError::EmptyUsername { index } => Some(
                ConfigFault::EmptyUsername { index: index as int },
            ),
            ConfigError::EmptyPasswordHash { index } => Some(
                ConfigFault::EmptyPasswordHash { index: index as int },
            ),
            ConfigError::UnsupportedHashAlgorithm { index, username } => Some(
                ConfigFault::UnsupportedHashAlgorithm { index: index as int, username: username@ },
            ),
            ConfigError::DuplicateUsername { username } => Some(
                ConfigFault::DuplicateUsername { username: username@ },
            ),
            ConfigError::InvalidTrustLevel { value } => Some(
                ConfigFault::InvalidTrustLevel { value: value@ },
            ),
        }
    }
}

impl From<serde_json::Error> for ConfigError {
    fn from(error: serde_json::Error) -> (r: Self) {
        ConfigError::InvalidJson(error)
    }
}

impl vstd::std_specs::convert::FromSpecImpl<serde_json::Error> for ConfigError {
    open spec fn obeys_from_spec() -> bool {
        true
    }

    open spec fn from_spec(error: serde_json::Error) -> Self {
        ConfigError::InvalidJson(error)
    }
}

/// The digits of a number, to the base ten.
pub open spec fn decimal(n: nat) -> Seq<char>
    decreases n,
{
    if n < 10 {
        seq![('0' as u32 + n) as char]
    } else {
        decimal(n / 10).push(('0' as u32 + n % 10) as char)
    }
}

/// What is said to the operator of a fault.
pub open spec fn fault_text(fault: ConfigFault) -> Seq<char> {
    match fault {
        ConfigFault::EmptyUsers => "identity.basic: `users` must be non-empty"@,
        ConfigFault::EmptyUsername { index } => "identity.basic: user["@ + decimal(index as nat)
            + "]: username is empty"@,
        ConfigFault::EmptyPasswordHash { index } => "identity.basic: user["@ + decimal(
            index as nat,
        ) + "]: password_hash is empty"@,
        ConfigFault::UnsupportedHashAlgorithm { index, username } => "identity.basic: user["@
            + decimal(index as nat) + "] (`"@ + username
            + "`): password_hash does not look like a supported PHC string (must start with $argon2id$, $argon2i$, $argon2d$, $2a$, $2b$, or $2y$). Re-hash via `argon2 -e` or `htpasswd -B`."@,
        ConfigFault::DuplicateUsername { username } => "identity.basic: duplicate username `"@
            + username
            + "` (case-folded under `username_case: insensitive`); set `username_case: sensitive` if Alice and alice are genuinely different users."@,
        ConfigFault::InvalidTrustLevel { value } => "identity.basic: invalid trust_level `"@
            + value + "` (allowed: verified | header_asserted)"@,
    }
}

/// The text of one digit.
fn digit_text(digit: usize) -> (r: &'static str)
    requires
        digit < 10,
    ensures
        r@ == seq![('0' as u32 + digit) as char],
{
    proof {
        reveal_strlit("0");
        reveal_strlit("1");
        reveal_strlit("2");
        reveal_strlit("3");
        reveal_strlit("4");
        reveal_strlit("5");
        reveal_strlit("6");
        reveal_strlit("7");
        reveal_strlit("8");
        reveal_strlit("9");
    }
    match digit {
        0 => "0",
        1 => "1",
        2 => "2",
        3 => "3",
        4 => "4",
        5 => "5",
        6 => "6",
        7 => "7",
        8 => "8",
        _ => "9",
    }
}

/// Writes a number to the base ten.
fn decimal_text(n: usize) -> (r: String)
    ensures
        r@ == decimal(n as nat),
    decreases n,
{
    if n < 10 {
        digit_text(n).to_owned()
    } else {
        let mut text = decimal_text(n / 10);
        text.append(digit_text(n % 10));
        text
    }
}

/// Trusted: the `Display` text of a `serde_json::Error`. Nothing is promised of
/// it: an error of reading shows the operating system's own words.
#[verifier::external_body]
fn json_error_text(error: &serde_json::Error) -> String {
    error.to_string()
}

/// What is said to the operator of a text that could not be decoded, given what
/// the decoder has to say.
pub fn invalid_json_text(detail: &str) -> (r: String)
    ensures
        r@ == "invalid identity.basic config JSON: "@ + detail@,
{
    "invalid identity.basic config JSON: ".to_owned().concat(detail)
}

impl ConfigError {
    /// What is said to the operator of an error. The text of an error of
    /// decoding ends in what the decoder has to say, which is left open.
    pub fn message(&self) -> (r: String)
        ensures
            match self.fault() {
                Some(fault) => r@ == fault_text(fault),
                None => "invalid identity.basic config JSON: "@.is_prefix_of(r@),
            },
    {
        match self {
            ConfigError::InvalidJson(error) => invalid_json_text(json_error_text(error).as_str()),
            ConfigError::EmptyUsers => "identity.basic: `users` must be non-empty".to_owned(),
            ConfigError::EmptyUsername { index } => "identity.basic: user[".to_owned().concat(
                decimal_text(*index).as_str(),
            ).concat("]: username is empty"),
            ConfigError::EmptyPasswordHash { index } => "identity.basic: user[".to_owned().concat(
                decimal_text(*index).as_str(),
            ).concat("]: password_hash is empty"),
            ConfigError::UnsupportedHashAlgorithm {
                index,
                username,
            } => "identity.basic: user[".to_owned().concat(decimal_text(*index).as_str()).concat(
                "] (`",
            ).concat(username.as_str()).concat(
                "`): password_hash does not look like a supported PHC string (must start with $argon2id$, $argon2i$, $argon2d$, $2a$, $2b$, or $2y$). Re-hash via `argon2 -e` or `htpasswd -B`.",
            ),
            ConfigError::DuplicateUsername {
                username,
            } => "identity.basic: duplicate username `".to_owned().concat(
                username.as_str(),
            ).concat(
                "` (case-folded under `username_case: insensitive`); set `username_case: sensitive` if Alice and alice are genuinely different users.",
            ),
            ConfigError::InvalidTrustLevel {
                value,
            } => "identity.basic: invalid trust_level `".to_owned().concat(value.as_str()).concat(
                "` (allowed: verified | header_asserted)",
            ),
        }
    }
}

/// Tells whether a text is among those listed.
fn listed(names: &Vec<String>, name: &String) -> (r: bool)
    ensures
        r == exists|j: int| 0 <= j < names@.len() && #[trigger] names@[j]@ == name@,
{
    let mut i: usize = 0;
    while i < names.len()
        invariant
            i <= names@.len(),
            forall|j: int| 0 <= j < i ==> #[trigger] names@[j]@ != name@,
        decreases names@.len() - i,
    {
        if names[i] == *name {
            return true;
        }
        i += 1;
    }
    false
}

impl BasicConfig {
    /// Validates a decoded configuration. An error of decoding is handed on.
    pub fn parse(decoded: Result<Self, serde_json::Error>) -> (r: Result<Self, ConfigError>)
        ensures
            match decoded {
                Err(error) => r == Err::<Self, ConfigError>(ConfigError::InvalidJson(error)),
                Ok(config) => match config_fault(config@) {
                    None => r == Ok::<Self, ConfigError>(config),
                    Some(fault) => r matches Err(error) && error.fault() == Some(fault),
                },
            },
    {
        match decoded {
            Err(error) => Err(ConfigError::from(error)),
            Ok(config) => match config.validate() {
                Ok(()) => Ok(config),
                Err(error) => Err(error),
            },
        }
    }

    /// Checks a configuration, and reports the first fault that there is.
    pub fn validate(&self) -> (r: Result<(), ConfigError>)
        ensures
            match config_fault(self@) {
                None => r is Ok,
                Some(fault) => r matches Err(error) && error.fault() == Some(fault),
            },
    {
        if self.users.is_empty() {
            return Err(ConfigError::EmptyUsers);
        }
        let level = self.resolution.trust_level.as_str();
        if !same_text(level, "verified") && !same_text(level, "header_asserted") {
            return Err(ConfigError::InvalidTrustLevel { value: level.to_owned() });
        }
        let ghost users = self@.users;
        let ghost case = self.username_case;
        let mut seen: Vec<String> = Vec::new();
        let mut index: usize = 0;
        while index < self.users.len()
            invariant
                index <= self.users@.len(),
                users == self@.users,
                case == self.username_case,
                users.len() > 0,
                known_trust_level(self@.trust_level),
                config_fault(self@) == users_fault(users, case, index as int),
                seen@.len() == index,
                forall|j: int|
                    0 <= j < index ==> #[trigger] seen@[j]@ == canonical(case, users[j].username),
            decreases self.users@.len() - index,
        {
            let user = &self.users[index];
            if blank(user.username.as_str()) {
                return Err(ConfigError::EmptyUsername { index });
            }
            if blank(user.password_hash.as_str()) {
                return Err(ConfigError::EmptyPasswordHash { index });
            }
            if HashKind::detect(user.password_hash.as_str()).is_none() {
                return Err(
                    ConfigError::UnsupportedHashAlgorithm {
                        index,
                        username: user.username.clone(),
                    },
                );
            }
            let name = canonical_username(self.username_case, user.username.as_str());
            if listed(&seen, &name) {
                return Err(ConfigError::DuplicateUsername { username: user.username.clone() });
            }
            proof {
                if repeats_earlier(users, case, index as int) {
                    let j = choose|j: int|
                        0 <= j < index && #[trigger] canonical(case, users[j].username)
                            == canonical(case, users[index as int].username);
                    assert(seen@[j]@ == name@);
                }
            }
            seen.push(name);
            index += 1;
        }
        Ok(())
    }
}

} // verus!
