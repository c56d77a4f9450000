//! What a resolution yields, and what the plugin says of itself.

use std::collections::BTreeMap;
use vstd::prelude::*;
use vstd::string::*;

verus! {

/// The identity of a caller.
#[derive(Debug, Clone)]
pub struct PluginIdentity {
    pub kind: String,
    pub trust_level: String,
    pub subject_id: Option<String>,
    pub auth_provider: Option<String>,
    pub issuer: Option<String>,
    pub roles: Vec<String>,
    pub groups: Vec<String>,
    pub scopes: Vec<String>,
    pub attributes: BTreeMap<String, String>,
}

/// The outcome of resolving a request.
#[derive(Debug, Clone)]
pub enum IdentityResolution {
    /// The caller is known: the chain of providers stops.
    Resolved { identity: PluginIdentity },
    /// No Basic credential was presented: the next provider is asked.
    NoCredential,
    /// A Basic credential was presented and rejected: the chain stops.
    Invalid { reason: String },
}

/// An identity, as texts.
#[verifier::ext_equal]
pub struct IdentityModel {
    pub kind: Seq<char>,
    pub trust_level: Seq<char>,
    pub subject_id: Option<Seq<char>>,
    pub auth_provider: Option<Seq<char>>,
    pub issuer: Option<Seq<char>>,
    pub roles: Seq<Seq<char>>,
    pub groups: Seq<Seq<char>>,
    pub scopes: Seq<Seq<char>>,
    pub attributes: Map<String, String>,
}

/// The outcome of a resolution, as texts.
#[verifier::ext_equal]
pub enum ResolutionModel {
    Resolved { identity: IdentityModel },
    NoCredential,
    Invalid { reason: Seq<char> },
}

impl View for PluginIdentity {
    type V = IdentityModel;

    open spec fn view(&self) -> IdentityModel {
        IdentityModel {
            kind: self.kind@,
            trust_level: self.trust_level@,
            subject_id: self.subject_id.deep_view(),
            auth_provider: self.auth_provider.deep_view(),
            issuer: self.issuer.deep_view(),
            roles: self.roles.deep_view(),
            groups: self.groups.deep_view(),
            scopes: self.scopes.deep_view(),
            attributes: self.attributes@,
        }
    }
}

impl View for IdentityResolution {
    type V = ResolutionModel;

    open spec fn view(&self) -> ResolutionModel {
        match self {
            IdentityResolution::Resolved { identity } => ResolutionModel::Resolved {
                identity: identity@,
            },
            IdentityResolution::NoCredential => ResolutionModel::NoCredential,
            IdentityResolution::Invalid { reason } => ResolutionModel::Invalid { reason: reason@ },
        }
    }
}

/// The label under which an outcome is counted.
pub open spec fn outcome_label(resolution: ResolutionModel) -> Seq<char> {
    match resolution {
        ResolutionModel::Resolved { .. } => "resolved"@,
        ResolutionModel::NoCredential => "none"@,
        ResolutionModel::Invalid { .. } => "invalid"@,
    }
}

/// Names the label under which an outcome is counted.
pub fn resolve_outcome(resolution: &IdentityResolution) -> (label: &'static str)
    ensures
        label@ == outcome_label(resolution@),
{
    match resolution {
        IdentityResolution::Resolved { .. } => "resolved",
        IdentityResolution::NoCredential => "none",
        IdentityResolution::Invalid { .. } => "invalid",
    }
}

/// The classes of plugins that a gateway loads.
#[derive(Debug, Clone, Copy, PartialEq, Eq, Structural)]
pub enum PluginClass {
    IdentityProvider,
}

/// What a plugin says of itself.
#[derive(Debug, Clone)]
pub struct PluginManifest {
    pub id: String,
    pub version: String,
    pub name: String,
    pub plugin_class: PluginClass,
    pub protocol_version: String,
    pub license: Option<String>,
    pub required_capabilities: Vec<String>,
    pub tags: Vec<String>,
    pub provides: Vec<String>,
    pub provides_schemes: Vec<String>,
    pub module_path_prefix: String,
    pub backend_profile: Option<String>,
}

/// A manifest, as texts.
#[verifier::ext_equal]
pub struct ManifestModel {
    pub id: Seq<char>,
    pub version: Seq<char>,
    pub name: Seq<char>,
    pub plugin_class: PluginClass,
    pub protocol_version: Seq<char>,
    pub license: Option<Seq<char>>,
    pub required_capabilities: Seq<Seq<char>>,
    pub tags: Seq<Seq<char>>,
    pub provides: Seq<Seq<char>>,
    pub provides_schemes: Seq<Seq<char>>,
    pub module_path_prefix: Seq<char>,
    pub backend_profile: Option<Seq<char>>,
}

impl View for PluginManifest {
    type V = ManifestModel;

    open spec fn view(&self) -> ManifestModel {
        ManifestModel {
            id: self.id@,
            version: self.version@,
            name: self.name@,
            plugin_class: self.plugin_class,
            protocol_version: self.protocol_version@,
            license: self.license.deep_view(),
            required_capabilities: self.required_capabilities.deep_view(),
            tags: self.tags.deep_view(),
            provides: self.provides.deep_view(),
            provides_schemes: self.provides_schemes.deep_view(),
            module_path_prefix: self.module_path_prefix@,
            backend_profile: self.backend_profile.deep_view(),
        }
    }
}

/// A text up to the first `::` at or behind `from`; the whole text where there
/// is none.
pub open spec fn before_path_separator(text: Seq<char>, from: int) -> Seq<char>
    decreases text.len() - from,
{
    if from + 1 >= text.len() {
        text
    } else if text[from] == ':' && text[from + 1] == ':' {
        text.take(from)
    } else {
        before_path_separator(text, from + 1)
    }
}

/// The manifest of this plugin, for a build of the given version whose code
/// lies under the path `code_path`.
pub open spec fn manifest_model(version: Seq<char>, code_path: Seq<char>) -> ManifestModel {
    ManifestModel {
        id: "dev.mcpg.identity.basic"@,
        version,
        name: "HTTP Basic Identity Resolver"@,
        plugin_class: PluginClass::IdentityProvider,
        protocol_version: "1.0"@,
        license: None,
        required_capabilities: Seq::empty(),
        tags: Seq::empty(),
        provides: Seq::empty(),
        provides_schemes: Seq::empty(),
        module_path_prefix: before_path_separator(code_path, 0),
        backend_profile: None,
    }
}

/// Takes the first segment off a module path: the name of the crate.
pub fn crate_of_path(code_path: &str) -> (name: &str)
    ensures
        name@ == before_path_separator(code_path@, 0),
{
    let mut i: usize = 0;
    let mut after_colon = false;
    let len: usize = code_path.unicode_len();
    for c in it: code_path.chars()
        invariant
            it.seq() == code_path@,
            i == it.index(),
            len == code_path@.len(),
            after_colon == (i > 0 && code_path@[i - 1] == ':'),
            before_path_separator(code_path@, 0) == before_path_separator(
                code_path@,
                if i > 0 {
                    i - 1
                } else {
                    0
                },
            ),
    {
        if after_colon && c == ':' {
            let name = code_path.substring_char(0, i - 1);
            return name;
        }
        after_colon = c == ':';
        i += 1;
    }
    code_path
}

/// The manifest of this plugin.
pub fn plugin_manifest(version: &str, code_path: &str) -> (manifest: PluginManifest)
    ensures
        manifest@ == manifest_model(version@, code_path@),
{
    PluginManifest {
        id: "dev.mcpg.identity.basic".to_owned(),
        version: version.to_owned(),
        name: "HTTP Basic Identity Resolver".to_owned(),
        plugin_class: PluginClass::IdentityProvider,
        protocol_version: "1.0".to_owned(),
        license: None,
        required_capabilities: Vec::new(),
        tags: Vec::new(),
        provides: Vec::new(),
        provides_schemes: Vec::new(),
        module_path_prefix: crate_of_path(code_path).to_owned(),
        backend_profile: None,
    }
}

} // verus!
