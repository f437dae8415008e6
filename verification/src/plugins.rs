//! Plugin manifests and explicit capability boundaries.

use std::path::PathBuf;

use vstd::prelude::*;

use crate::order::{lemma_lex_total, lemma_lex_transitive, lex_le, name_le, Keyed};
use crate::text::{all_name_chars, is_blank, only_name_chars, trims_to_empty};

verus! {

/// What a plugin may do; nothing outside its manifest's list is granted.
#[derive(Debug, Clone, Copy, PartialEq, Eq, Structural, PartialOrd, Ord, Hash)]
pub enum PluginCapability {
    FilesystemRead,
    FilesystemWrite,
    ShellExecute,
    Network,
    ModelAccess,
    WorkspaceManage,
    SessionRead,
    SessionWrite,
}

/// A plugin's declared identity, entrypoint and capabilities.
#[derive(Debug, Clone)]
pub struct PluginManifest {
    pub name: String,
    pub version: String,
    pub description: String,
    pub entrypoint: String,
    pub capabilities: Vec<PluginCapability>,
}

impl PluginManifest {
    /// No capability is declared twice, as in a set; a manifest read from
    /// `plugin.toml` is well formed.
    pub open spec fn well_formed(&self) -> bool {
        self.capabilities@.no_duplicates()
    }
}

/// Why a plugin could not be accepted.
#[derive(Debug)]
pub enum PluginError {
    InvalidManifest(String),
    Io(std::io::Error),
    Toml(toml::de::Error),
}

/// A name is non-empty and made of ASCII letters, digits, `-`, `_` and `.`.
pub open spec fn valid_plugin_name(name: Seq<char>) -> bool {
    !trims_to_empty(name) && all_name_chars(name)
}

/// The first problem `validate` reports, if any.
pub open spec fn manifest_problem(m: PluginManifest) -> Option<Seq<char>> {
    if !valid_plugin_name(m.name@) {
        Some("invalid plugin name"@)
    } else if trims_to_empty(m.version@) {
        Some("version is required"@)
    } else if trims_to_empty(m.entrypoint@) {
        Some("entrypoint is required"@)
    } else {
        None
    }
}

impl PluginManifest {
    /// Checks the name, then the version, then the entrypoint.
    pub fn validate(&self) -> (r: Result<(), PluginError>)
        ensures
            r is Ok <==> manifest_problem(*self) is None,
            r matches Err(e) ==> (e matches PluginError::InvalidManifest(msg) && Some(msg@)
                == manifest_problem(*self)),
    {
        if is_blank(self.name.as_str()) || !only_name_chars(self.name.as_str()) {
            let msg = "invalid plugin name".to_owned();
            return Err(PluginError::InvalidManifest(msg));
        }
        if is_blank(self.version.as_str()) {
            let msg = "version is required".to_owned();
            return Err(PluginError::InvalidManifest(msg));
        }
        if is_blank(self.entrypoint.as_str()) {
            let msg = "entrypoint is required".to_owned();
            return Err(PluginError::InvalidManifest(msg));
        }
        Ok(())
    }

    /// Whether the manifest lists `capability`.
    pub fn allows(&self, capability: PluginCapability) -> (b: bool)
        ensures
            b == self.capabilities@.contains(capability),
    {
        let mut i: usize = 0;
        while i < self.capabilities.len()
            invariant
                i <= self.capabilities@.len(),
                forall|j: int| 0 <= j < i ==> self.capabilities@[j] != capability,
            decreases self.capabilities@.len() - i,
        {
            if self.capabilities[i] == capability {
                return true;
            }
            i = i + 1;
        }
        false
    }
}

/// A plugin found on disk: its directory and its manifest.
#[derive(Debug, Clone)]
pub struct DiscoveredPlugin {
    pub root: PathBuf,
    pub manifest: PluginManifest,
}

impl Keyed for DiscoveredPlugin {
    open spec fn key_le(&self, other: &Self) -> bool {
        lex_le(self.manifest.name@, other.manifest.name@)
    }

    proof fn lemma_key_total(a: &Self, b: &Self) {
        lemma_lex_total(a.manifest.name@, b.manifest.name@);
    }

    proof fn lemma_key_transitive(a: &Self, b: &Self, c: &Self) {
        lemma_lex_transitive(a.manifest.name@, b.manifest.name@, c.manifest.name@);
    }

    fn key_le_exec(&self, other: &Self) -> (r: bool) {
        name_le(self.manifest.name.as_str(), other.manifest.name.as_str())
    }
}

} // verus!

verus! {

/// Orders validated plugins by manifest name, keeping discovery order among equal names.
pub fn sort_plugins(plugins: Vec<DiscoveredPlugin>) -> (r: Vec<DiscoveredPlugin>)
    ensures
        r@ == crate::order::sort_spec(plugins@),
        crate::order::sorted(r@),
        r@.to_multiset() == plugins@.to_multiset(),
{
    crate::order::stable_sort(plugins)
}

} // verus!

verus! {

impl PluginError {
    /// Whether `text` is how the error reads.
    pub open spec fn message_is(&self, text: Seq<char>) -> bool {
        match self {
            PluginError::InvalidManifest(m) => text == "invalid plugin manifest: "@ + m@,
            PluginError::Io(e) => exists|t: Seq<char>|
                text == "plugin I/O failed: "@ + t && crate::text::displays_as(e, t),
            PluginError::Toml(e) => exists|t: Seq<char>|
                text == "invalid plugin configuration: "@ + t && crate::text::displays_as(e, t),
        }
    }

    /// How the error reads.
    pub fn message(&self) -> (r: String)
        ensures
            self.message_is(r@),
    {
        match self {
            PluginError::InvalidManifest(m) => crate::text::prefixed("invalid plugin manifest: ", m.as_str()),
            PluginError::Io(e) => crate::text::prefixed_display("plugin I/O failed: ", e),
            PluginError::Toml(e) => crate::text::prefixed_display("invalid plugin configuration: ", e),
        }
    }
}

} // verus!

verus! {

/// A manifest whose name is a non-empty run of ASCII letters (either case),
/// digits, `-`, `_` and `.`, and whose version and entrypoint each hold an
/// ASCII letter or digit, is accepted. A name that is empty or holds any
/// other character is refused as an invalid plugin name, before anything else.
pub proof fn lemma_manifest_acceptance(m: PluginManifest)
    ensures
        ({
            &&& m.name@.len() > 0
            &&& forall|i: int|
                0 <= i < m.name@.len() ==> {
                    let c = #[trigger] m.name@[i];
                    ('a' <= c && c <= 'z') || ('A' <= c && c <= 'Z') || ('0' <= c && c <= '9') || c == '-'
                        || c == '_' || c == '.'
                }
            &&& exists|j: int|
                0 <= j < m.version@.len() && {
                    let c = #[trigger] m.version@[j];
                    ('a' <= c && c <= 'z') || ('A' <= c && c <= 'Z') || ('0' <= c && c <= '9')
                }
            &&& exists|k: int|
                0 <= k < m.entrypoint@.len() && {
                    let c = #[trigger] m.entrypoint@[k];
                    ('a' <= c && c <= 'z') || ('A' <= c && c <= 'Z') || ('0' <= c && c <= '9')
                }
        }) ==> manifest_problem(m) is None,
        m.name@.len() == 0 ==> manifest_problem(m) == Some("invalid plugin name"@),
        (exists|i: int|
            0 <= i < m.name@.len() && {
                let c = #[trigger] m.name@[i];
                !(('a' <= c && c <= 'z') || ('A' <= c && c <= 'Z') || ('0' <= c && c <= '9') || c == '-'
                    || c == '_' || c == '.')
            }) ==> manifest_problem(m) == Some("invalid plugin name"@),
{
    if m.name@.len() > 0 && forall|i: int|
        0 <= i < m.name@.len() ==> {
            let c = #[trigger] m.name@[i];
            ('a' <= c && c <= 'z') || ('A' <= c && c <= 'Z') || ('0' <= c && c <= '9') || c == '-'
                || c == '_' || c == '.'
        } {
        let c0 = m.name@[0];
        assert(!crate::text::is_white_space(c0));
        assert(!trims_to_empty(m.name@));
        assert(all_name_chars(m.name@));
        if exists|j: int|
            0 <= j < m.version@.len() && {
                let c = #[trigger] m.version@[j];
                ('a' <= c && c <= 'z') || ('A' <= c && c <= 'Z') || ('0' <= c && c <= '9')
            } {
            let j = choose|j: int|
                0 <= j < m.version@.len() && {
                    let c = #[trigger] m.version@[j];
                    ('a' <= c && c <= 'z') || ('A' <= c && c <= 'Z') || ('0' <= c && c <= '9')
                };
            assert(!crate::text::is_white_space(m.version@[j]));
        }
        if exists|k: int|
            0 <= k < m.entrypoint@.len() && {
                let c = #[trigger] m.entrypoint@[k];
                ('a' <= c && c <= 'z') || ('A' <= c && c <= 'Z') || ('0' <= c && c <= '9')
            } {
            let k = choose|k: int|
                0 <= k < m.entrypoint@.len() && {
                    let c = #[trigger] m.entrypoint@[k];
                    ('a' <= c && c <= 'z') || ('A' <= c && c <= 'Z') || ('0' <= c && c <= '9')
                };
            assert(!crate::text::is_white_space(m.entrypoint@[k]));
        }
    }
    if exists|i: int|
        0 <= i < m.name@.len() && {
            let c = #[trigger] m.name@[i];
            !(('a' <= c && c <= 'z') || ('A' <= c && c <= 'Z') || ('0' <= c && c <= '9') || c == '-'
                || c == '_' || c == '.')
        } {
        let i = choose|i: int|
            0 <= i < m.name@.len() && {
                let c = #[trigger] m.name@[i];
                !(('a' <= c && c <= 'z') || ('A' <= c && c <= 'Z') || ('0' <= c && c <= '9') || c == '-'
                    || c == '_' || c == '.')
            };
        assert(!crate::text::is_name_char(m.name@[i]));
        assert(!all_name_chars(m.name@));
    }
}

} // verus!
