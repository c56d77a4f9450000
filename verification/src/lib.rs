//! HTTP Basic authentication: resolves the caller of a request against a user
//! registry that the operator declares.
//!
//! A configuration is validated ([`config`]) and compiled into a registry
//! ([`plugin`]). A request's headers yield a credential ([`credential`]), the
//! credential a username and a password, and the registry the outcome
//! ([`identity`]): a resolved identity, a rejection, or nothing to say because
//! no Basic credential was presented. Passwords are verified against Argon2 and
//! bcrypt hashes ([`hash`]). What holds of all this together is in [`laws`].
//!
//! A caller whose password was verified gets the trust level that the
//! configuration names: `verified`, unless the operator lowers it to
//! `header_asserted`.

pub mod clock;
pub mod config;
pub mod credential;
pub mod hash;
pub mod identity;
pub mod laws;
pub mod plugin;
pub mod text;

pub use crate::config::{BasicConfig, ConfigError, ResolutionConfig, UserEntry, UsernameCase};
pub use crate::plugin::BasicIdentityPlugin;
