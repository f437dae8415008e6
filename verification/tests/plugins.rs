use std::path::PathBuf;

use nexus::plugins::{sort_plugins, DiscoveredPlugin, PluginCapability, PluginError, PluginManifest};

fn manifest(name: &str, version: &str, entrypoint: &str) -> PluginManifest {
    PluginManifest {
        name: name.to_owned(),
        version: version.to_owned(),
        description: String::new(),
        entrypoint: entrypoint.to_owned(),
        capabilities: Vec::new(),
    }
}

#[test]
fn capabilities_are_explicit() {
    let manifest = PluginManifest {
        name: "example".to_owned(),
        version: "1.0.0".to_owned(),
        description: String::new(),
        entrypoint: "plugin".to_owned(),
        capabilities: vec![PluginCapability::FilesystemRead],
    };
    assert!(manifest.allows(PluginCapability::FilesystemRead));
    assert!(!manifest.allows(PluginCapability::ShellExecute));
}

fn problem(m: &PluginManifest) -> Option<String> {
    match m.validate() {
        Ok(()) => None,
        Err(PluginError::InvalidManifest(msg)) => Some(msg),
        Err(other) => panic!("unexpected {other:?}"),
    }
}

#[test]
fn validate_reports_name_then_version_then_entrypoint() {
    assert_eq!(problem(&manifest("ok-name_1.2", "1", "run")), None);
    assert_eq!(problem(&manifest("", "", "")).as_deref(), Some("invalid plugin name"));
    assert_eq!(problem(&manifest("bad name", "1", "run")).as_deref(), Some("invalid plugin name"));
    assert_eq!(problem(&manifest("  ", "1", "run")).as_deref(), Some("invalid plugin name"));
    assert_eq!(problem(&manifest("nämé", "1", "run")).as_deref(), Some("invalid plugin name"));
    assert_eq!(problem(&manifest("p", " \t\n", "run")).as_deref(), Some("version is required"));
    assert_eq!(problem(&manifest("p", "1", "\u{3000}")).as_deref(), Some("entrypoint is required"));
    assert_eq!(problem(&manifest("p", "1", " x ")), None);
}

#[test]
fn plugins_sort_by_name() {
    let found = vec![
        DiscoveredPlugin { root: PathBuf::from("/b"), manifest: manifest("beta", "1", "b") },
        DiscoveredPlugin { root: PathBuf::from("/a"), manifest: manifest("alpha", "1", "a") },
        DiscoveredPlugin { root: PathBuf::from("/B"), manifest: manifest("Beta", "1", "B") },
    ];
    let sorted = sort_plugins(found);
    let names: Vec<&str> = sorted.iter().map(|p| p.manifest.name.as_str()).collect();
    assert_eq!(names, vec!["Beta", "alpha", "beta"]);
}
