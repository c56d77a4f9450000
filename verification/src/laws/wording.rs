//! Wording: what is said to the operator and to the gateway.

use crate::config::{decimal, fault_text, ConfigFault};
use crate::identity::{
    before_path_separator, manifest_model, outcome_label, PluginClass, ResolutionModel,
};
use vstd::prelude::*;

verus! {

/// The number that a text of digits stands for, to the base ten.
pub open spec fn number_of(digits: Seq<char>) -> int
    decreases digits.len(),
{
    if digits.len() == 0 {
        0
    } else {
        10 * number_of(digits.drop_last()) + (digits.last() as u32 - '0' as u32)
    }
}

/// A number is written with digits alone, without a leading zero, and is read
/// back as it was.
pub proof fn number_is_read_back(n: nat)
    ensures
        number_of(decimal(n)) == n,
        decimal(n).len() > 0,
        forall|i: int| 0 <= i < decimal(n).len() ==> '0' <= #[trigger] decimal(n)[i] <= '9',
        decimal(n).len() > 1 ==> decimal(n)[0] != '0',
    decreases n,
{
    if n < 10 {
        let digit = ('0' as u32 + n) as char;
        assert(decimal(n) == seq![digit]);
        assert(decimal(n).drop_last() =~= Seq::<char>::empty());
        assert(number_of(Seq::<char>::empty()) == 0);
    } else {
        let head = decimal(n / 10);
        let digit = ('0' as u32 + n % 10) as char;
        number_is_read_back(n / 10);
        assert(decimal(n) == head.push(digit));
        assert(decimal(n).drop_last() =~= head);
        assert(decimal(n)[0] == head[0]);
        if head.len() == 1 {
            assert(head.drop_last() =~= Seq::<char>::empty());
            assert(number_of(Seq::<char>::empty()) == 0);
            assert(number_of(head) == head.last() as u32 - '0' as u32);
        }
    }
}

/// A message names the fault, with the index of the user, the username or the
/// trust level that it is about.
pub proof fn message_names_the_fault(index: nat, text: Seq<char>)
    ensures
        fault_text(ConfigFault::EmptyUsers) == "identity.basic: `users` must be non-empty"@,
        fault_text(ConfigFault::EmptyUsername { index: index as int }) == "identity.basic: user["@
            + decimal(index) + "]: username is empty"@,
        fault_text(ConfigFault::EmptyPasswordHash { index: index as int })
            == "identity.basic: user["@ + decimal(index) + "]: password_hash is empty"@,
        fault_text(
            ConfigFault::UnsupportedHashAlgorithm { index: index as int, username: text },
        ) == "identity.basic: user["@ + decimal(index) + "] (`"@ + text
            + "`): password_hash does not look like a supported PHC string (must start with $argon2id$, $argon2i$, $argon2d$, $2a$, $2b$, or $2y$). Re-hash via `argon2 -e` or `htpasswd -B`."@,
        fault_text(ConfigFault::DuplicateUsername { username: text })
            == "identity.basic: duplicate username `"@ + text
            + "` (case-folded under `username_case: insensitive`); set `username_case: sensitive` if Alice and alice are genuinely different users."@,
        fault_text(ConfigFault::InvalidTrustLevel { value: text })
            == "identity.basic: invalid trust_level `"@ + text
            + "` (allowed: verified | header_asserted)"@,
{
}

/// An outcome is counted under its own label.
pub proof fn outcome_has_its_label(answer: ResolutionModel)
    ensures
        answer is Resolved ==> outcome_label(answer) == "resolved"@,
        answer is NoCredential ==> outcome_label(answer) == "none"@,
        answer is Invalid ==> outcome_label(answer) == "invalid"@,
{
}

/// Two colons stand at `k` in a text.
pub open spec fn separator_at(text: Seq<char>, k: int) -> bool {
    0 <= k && k + 1 < text.len() && text[k] == ':' && text[k + 1] == ':'
}

/// The first segment of a path ends where the first two colons stand; a path
/// without two colons is one segment.
pub proof fn first_segment_ends_at_the_separator(text: Seq<char>, k: int)
    ensures
        separator_at(text, k) && (forall|j: int| 0 <= j < k ==> !#[trigger] separator_at(text, j))
            ==> before_path_separator(text, 0) == text.take(k),
        (forall|j: int| !#[trigger] separator_at(text, j)) ==> before_path_separator(text, 0)
            == text,
{
    segment_from(text, k, 0);
}

/// The same, from a place on before which no two colons stand.
proof fn segment_from(text: Seq<char>, k: int, from: int)
    requires
        0 <= from,
    ensures
        from <= k && separator_at(text, k) && (forall|j: int|
            0 <= j < k ==> !#[trigger] separator_at(text, j)) ==> before_path_separator(text, from)
            == text.take(k),
        (forall|j: int| !#[trigger] separator_at(text, j)) ==> before_path_separator(text, from)
            == text,
    decreases text.len() - from,
{
    if from + 1 < text.len() {
        assert(separator_at(text, from) <==> text[from] == ':' && text[from + 1] == ':');
        segment_from(text, k, from + 1);
    }
}

/// The manifest names this plugin, the version of its build and its crate, and
/// asks for nothing.
pub proof fn manifest_asks_for_nothing(version: Seq<char>, code_path: Seq<char>)
    ensures
        manifest_model(version, code_path).id == "dev.mcpg.identity.basic"@,
        manifest_model(version, code_path).version == version,
        manifest_model(version, code_path).name == "HTTP Basic Identity Resolver"@,
        manifest_model(version, code_path).plugin_class == PluginClass::IdentityProvider,
        manifest_model(version, code_path).protocol_version == "1.0"@,
        manifest_model(version, code_path).license is None,
        manifest_model(version, code_path).required_capabilities.len() == 0,
        manifest_model(version, code_path).tags.len() == 0,
        manifest_model(version, code_path).provides.len() == 0,
        manifest_model(version, code_path).provides_schemes.len() == 0,
        manifest_model(version, code_path).module_path_prefix == before_path_separator(
            code_path,
            0,
        ),
        manifest_model(version, code_path).backend_profile is None,
{
}

} // verus!
