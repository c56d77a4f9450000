# identity_basic

Resolves the caller of a request by HTTP Basic authentication, against a user
registry declared in configuration. The library is written in Verus: what each
function does is stated in its contract and proved.

- `src/config.rs`: the configuration, its defaults, its validation, its errors.
- `src/credential.rs`: from request headers to a username and a password.
- `src/hash.rs`: Argon2 and bcrypt hash strings, and passwords against them.
- `src/plugin.rs`: the compiled registry, and the resolution of a request.
- `src/identity.rs`: outcomes, identities and the plugin's manifest.
- `src/clock.rs`, `src/text.rs`: points in time, and text.
- `src/laws.rs`: what holds of the library as a whole.
- `app/`: the JSON schema of the configuration, metrics, logs and traces.

A request is answered in one of three ways. *Resolved*: the password was
verified, and the account is enabled and not expired. *NoCredential*: there is
no `Authorization: Basic` header, or its credential is empty, so the next
provider may be asked. *Invalid*: a Basic credential was presented and rejected,
with the reason; no other provider is asked.

Hash verification, base64 and RFC 3339 parsing are done by the crates `argon2`
(with `password-hash`), `bcrypt`, `base64` and `time`. What the proofs take from
them without proof is marked "Trusted" where it stands.
