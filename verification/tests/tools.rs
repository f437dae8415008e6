use std::path::PathBuf;
use std::time::Duration;

use nexus::json::{Json, JsonNumber};
use nexus::tools::{
    confine, is_absolute, resolve_in_root, resolve_workspace_path, shell_args, FileSystemTool, ShellTool, ToolError, ToolMetadata,
    ToolRegistry,
};

struct EchoTool;

fn echo_metadata() -> ToolMetadata {
    ToolMetadata {
        name: "echo".to_owned(),
        description: "echoes input".to_owned(),
        input_schema: serde_json::from_str(r#"{"type":"object","properties":{"value":{}}}"#).unwrap(),
    }
}

#[test]
fn duplicate_tool_names_are_rejected() {
    let mut registry = ToolRegistry::new();
    registry.register(echo_metadata(), EchoTool).expect("first registration should succeed");
    assert!(matches!(registry.register(echo_metadata(), EchoTool), Err(ToolError::AlreadyRegistered(_))));
}

fn meta(name: &str) -> ToolMetadata {
    ToolMetadata { name: name.to_owned(), description: format!("{name} tool"), input_schema: serde_json::Value::Null }
}

#[test]
fn registry_gets_and_lists_sorted() {
    let mut registry = ToolRegistry::new();
    registry.register(meta("shell.execute"), 2).unwrap();
    registry.register(meta("filesystem.read"), 1).unwrap();
    assert_eq!(*registry.get("filesystem.read").unwrap(), 1);
    match registry.get("missing") {
        Err(ToolError::NotFound(name)) => assert_eq!(name, "missing"),
        _ => panic!("expected NotFound"),
    }
    let names: Vec<String> = registry.metadata().into_iter().map(|m| m.name).collect();
    assert_eq!(names, vec!["filesystem.read".to_owned(), "shell.execute".to_owned()]);
    let defs = registry.model_tools();
    assert_eq!(defs.len(), 2);
    assert_eq!(defs[0].name, "filesystem.read");
    assert_eq!(defs[0].description, "filesystem.read tool");
    assert_eq!(defs[1].name, "shell.execute");
    assert_eq!(defs[1].description, "shell.execute tool");
}

fn obj(entries: Vec<(&str, Json)>) -> Json {
    Json::Object(entries.into_iter().map(|(k, v)| (k.to_owned(), v)).collect())
}

fn s(text: &str) -> Json {
    Json::String(text.to_owned())
}

fn invalid(result: Result<impl std::fmt::Debug, ToolError>) -> String {
    match result {
        Err(ToolError::InvalidInput(msg)) => msg,
        other => panic!("expected invalid input, got {other:?}"),
    }
}

#[test]
fn shell_timeouts_follow_policy() {
    let root = PathBuf::from(".");
    let tool = ShellTool::with_timeouts(root.clone(), Duration::from_millis(10), Duration::from_millis(20));
    let over = obj(vec![("program", s("printf")), ("timeout_ms", Json::Number(JsonNumber::PosInt(21)))]);
    assert_eq!(invalid(tool.timeout_for(&over)), "`timeout_ms` exceeds the maximum of 20 ms");
    let zero = obj(vec![("timeout_ms", Json::Number(JsonNumber::PosInt(0)))]);
    assert_eq!(invalid(tool.timeout_for(&zero)), "`timeout_ms` must be greater than zero");
    let neg = obj(vec![("timeout_ms", Json::Number(JsonNumber::NegInt(-1)))]);
    assert_eq!(invalid(tool.timeout_for(&neg)), "`timeout_ms` must be an unsigned integer");
    let text = obj(vec![("timeout_ms", s("5"))]);
    assert_eq!(invalid(tool.timeout_for(&text)), "`timeout_ms` must be an unsigned integer");
    let ok = obj(vec![("timeout_ms", Json::Number(JsonNumber::PosInt(20)))]);
    assert_eq!(tool.timeout_for(&ok).unwrap(), Duration::from_millis(20));
    assert_eq!(tool.timeout_for(&obj(vec![])).unwrap(), Duration::from_millis(10));
    let default_tool = ShellTool::new(root);
    assert_eq!(default_tool.timeout_for(&Json::Null).unwrap(), Duration::from_secs(30));
    let five_min = obj(vec![("timeout_ms", Json::Number(JsonNumber::PosInt(300_001)))]);
    assert_eq!(invalid(default_tool.timeout_for(&five_min)), "`timeout_ms` exceeds the maximum of 300000 ms");
    let at_limit = obj(vec![("timeout_ms", Json::Number(JsonNumber::PosInt(300_000)))]);
    assert_eq!(default_tool.timeout_for(&at_limit).unwrap(), Duration::from_secs(300));
}

#[test]
fn shell_request_checks_program_args_cwd_timeout_in_order() {
    let root = PathBuf::from(".");
    let tool = ShellTool::with_timeouts(root.clone(), Duration::from_millis(10), Duration::from_millis(20));
    assert_eq!(invalid(tool.prepare(&obj(vec![]))), "missing string field `program`");
    assert_eq!(invalid(tool.prepare(&obj(vec![("program", s(""))]))), "missing string field `program`");
    assert_eq!(
        invalid(tool.prepare(&obj(vec![("program", s("ls")), ("args", s("-l"))]))),
        "`args` must be an array"
    );
    assert_eq!(
        invalid(tool.prepare(&obj(vec![("program", s("ls")), ("args", Json::Array(vec![s("-l"), Json::Bool(true)]))]))),
        "every `args` entry must be a string"
    );
    assert_eq!(
        invalid(tool.prepare(&obj(vec![("program", s("ls")), ("cwd", Json::Bool(false)), ("timeout_ms", s("x"))]))),
        "`cwd` must be a string"
    );
    assert_eq!(
        invalid(tool.prepare(&obj(vec![("program", s("ls")), ("cwd", s("/etc"))]))),
        "absolute paths are not allowed"
    );
    assert_eq!(
        invalid(tool.prepare(&obj(vec![("program", s("ls")), ("timeout_ms", Json::Number(JsonNumber::PosInt(21)))]))),
        "`timeout_ms` exceeds the maximum of 20 ms"
    );
    let command = tool
        .prepare(&obj(vec![("program", s("printf")), ("args", Json::Array(vec![s("nexus")]))]))
        .expect("valid request");
    assert_eq!(command.program, "printf");
    assert_eq!(command.args, vec!["nexus".to_owned()]);
    assert_eq!(command.cwd, root.canonicalize().unwrap());
    assert_eq!(command.timeout, Duration::from_millis(10));
}

#[test]
fn shell_args_default_to_empty() {
    assert!(shell_args(&obj(vec![("program", s("ls"))])).unwrap().is_empty());
}

#[test]
fn workspace_paths_stay_inside_the_root() {
    let root = PathBuf::from("/tmp");
    assert!(is_absolute("/tmp"));
    assert!(!is_absolute("tmp"));
    assert_eq!(invalid(resolve_workspace_path(&root, "/etc/passwd")), "absolute paths are not allowed");
    assert_eq!(invalid(resolve_workspace_path(&root, "..")), "path escapes workspace root");
    assert!(matches!(resolve_workspace_path(&root, "no/such/file"), Err(ToolError::Execution(_))));
    let found = resolve_workspace_path(&PathBuf::from("/"), "tmp").expect("directory inside the root");
    assert_eq!(found, PathBuf::from("/tmp").canonicalize().unwrap());
}

#[test]
fn filesystem_tool_needs_a_string_path() {
    let tool = FileSystemTool::new(PathBuf::from("/"));
    assert_eq!(invalid(tool.target(&obj(vec![]))), "missing string field `path`");
    assert_eq!(invalid(tool.target(&obj(vec![("path", Json::Number(JsonNumber::Float))]))), "missing string field `path`");
    assert!(tool.target(&obj(vec![("path", s("tmp"))])).is_ok());
}

#[test]
fn json_objects_answer_their_first_entry() {
    let value = obj(vec![("a", s("1")), ("a", s("2"))]);
    assert!(matches!(value.get("a"), Some(Json::String(t)) if t == "1"));
    assert!(value.get("b").is_none());
    assert!(s("x").get("a").is_none());
}

#[test]
fn containment_compares_whole_components() {
    assert!(confine(b"/srv/app", b"/srv/app").is_ok());
    assert!(confine(b"/srv/app/src/main.rs", b"/srv/app").is_ok());
    assert_eq!(invalid(confine(b"/srv/application", b"/srv/app")), "path escapes workspace root");
    assert_eq!(invalid(confine(b"/srv", b"/srv/app")), "path escapes workspace root");
    assert!(confine(b"/etc", b"/").is_ok());
    assert!(confine(b"/srv/app/\xff", b"/srv/app").is_ok());
}

#[test]
fn shell_tool_rejects_timeouts_above_policy_limit() {
    let root = PathBuf::from("/tmp");
    let tool = ShellTool::with_timeouts(root, Duration::from_millis(10), Duration::from_millis(20));
    let input = obj(vec![("program", s("printf")), ("timeout_ms", Json::Number(JsonNumber::PosInt(21)))]);
    let error = tool.prepare(&input).expect_err("timeout above the policy limit should fail");
    assert!(matches!(error, ToolError::InvalidInput(_)));
}

#[test]
fn resolution_keeps_the_canonical_texts() {
    let w = resolve_in_root(&PathBuf::from("/"), "tmp").expect("directory inside the root");
    assert_eq!(w.root, PathBuf::from("/"));
    assert_eq!(w.path, PathBuf::from("/tmp").canonicalize().unwrap());
    assert!(w.path.starts_with(&w.root));
    assert!(matches!(resolve_in_root(&PathBuf::from("/tmp"), ".."), Err(ToolError::InvalidInput(m)) if m == "path escapes workspace root"));
    let over = obj(vec![("program", s("printf")), ("cwd", s("..")), ("timeout_ms", Json::Number(JsonNumber::PosInt(21)))]);
    let tool = ShellTool::with_timeouts(PathBuf::from("/tmp"), Duration::from_millis(10), Duration::from_millis(20));
    assert_eq!(invalid(tool.prepare(&over)), "path escapes workspace root");
}

#[test]
fn registry_metadata_keeps_schemas() {
    let mut registry = ToolRegistry::new();
    let mut m = meta("echo");
    m.input_schema = serde_json::Value::Bool(true);
    registry.register(m, 0).unwrap();
    assert_eq!(registry.metadata()[0].input_schema, serde_json::Value::Bool(true));
    assert_eq!(registry.model_tools()[0].input_schema, serde_json::Value::Bool(true));
}
