use std::io::{Error, ErrorKind};
use std::path::PathBuf;
use std::time::Duration;

use nexus::agents::AgentError;
use nexus::context::ContextError;
use nexus::mcp::McpError;
use nexus::models::ModelError;
use nexus::permissions::PermissionError;
use nexus::plugins::PluginError;
use nexus::runtime::RuntimeError;
use nexus::sdk::SdkError;
use nexus::skills::SkillError;
use nexus::storage::StorageError;
use nexus::tools::ToolError;
use nexus::workspace::WorkspaceError;

fn io(text: &str) -> Error {
    Error::new(ErrorKind::Other, text.to_owned())
}

#[test]
fn permission_and_tool_errors_read_as_documented() {
    assert_eq!(PermissionError::Denied("a".into()).message(), "permission denied for action: a");
    assert_eq!(PermissionError::ApprovalRequired("a".into()).message(), "approval required for action: a");
    assert_eq!(PermissionError::SandboxRequired("a".into()).message(), "sandbox execution required for action: a");
    assert_eq!(ToolError::Execution("x".into()).message(), "tool execution failed: x");
    assert_eq!(ToolError::Timeout(Duration::from_millis(1500)).message(), "tool execution timed out after 1.5s");
    assert_eq!(ToolError::NotFound("t".into()).message(), "tool not found: t");
    assert_eq!(ToolError::AlreadyRegistered("t".into()).message(), "tool already registered: t");
    assert_eq!(ToolError::InvalidInput("bad".into()).message(), "invalid tool input: bad");
}

#[test]
fn runtime_and_sdk_errors_pass_wrapped_errors_through() {
    assert_eq!(RuntimeError::Model(ModelError::Provider("down".into())).message(), "model provider error: down");
    assert_eq!(
        RuntimeError::Permission(PermissionError::Denied("shell".into())).message(),
        "permission denied for action: shell"
    );
    assert_eq!(RuntimeError::Tool(ToolError::NotFound("t".into())).message(), "tool not found: t");
    assert_eq!(RuntimeError::InvalidMaxSteps.message(), "max tool steps must be greater than zero");
    assert_eq!(RuntimeError::MaxToolSteps(8).message(), "agent run exceeded the maximum of 8 tool steps");
    assert_eq!(RuntimeError::Cancelled.message(), "agent run was cancelled");
    let bad = serde_json::from_str::<serde_json::Value>("{").unwrap_err();
    let shown = bad.to_string();
    assert_eq!(RuntimeError::Serialization(bad).message(), shown);
    assert_eq!(SdkError::MissingProvider.message(), "a model provider must be configured");
    assert_eq!(SdkError::MissingModel.message(), "a model must be configured");
    assert_eq!(SdkError::Cancelled.message(), "Nexus execution was cancelled");
    assert_eq!(SdkError::Runtime(RuntimeError::Cancelled).message(), "agent run was cancelled");
}

#[test]
fn workspace_and_agent_errors_read_as_documented() {
    assert_eq!(WorkspaceError::InvalidName("../x".into()).message(), "workspace name is invalid: ../x");
    assert_eq!(WorkspaceError::AlreadyExists("w".into()).message(), "workspace already exists: w");
    assert_eq!(WorkspaceError::NotFound("w".into()).message(), "workspace not found: w");
    assert_eq!(
        WorkspaceError::ReviewRequired("w".into()).message(),
        "explicit review approval is required before merging workspace: w"
    );
    assert_eq!(WorkspaceError::InvalidAgentCount.message(), "parallel agent count must be greater than zero");
    assert_eq!(
        WorkspaceError::InvalidContainerWorkspace(PathBuf::from("/tmp/x")).message(),
        "container workspace path is invalid: /tmp/x"
    );
    assert_eq!(WorkspaceError::ContainerNotRunning("box".into()).message(), "container `box` is not running");
    assert_eq!(WorkspaceError::ContainerTimeout.message(), "container execution timed out");
    assert_eq!(WorkspaceError::Container("oops".into()).message(), "container runtime failed: oops");
    assert_eq!(WorkspaceError::Git("fatal".into()).message(), "git command failed: fatal");
    assert_eq!(WorkspaceError::Io(io("disk full")).message(), "disk full");
    assert_eq!(AgentError::Workspace(WorkspaceError::ContainerTimeout).message(), "container execution timed out");
    assert_eq!(AgentError::InvalidConcurrency.message(), "parallel agent concurrency must be greater than zero");
    assert_eq!(AgentError::Execution("x".into()).message(), "agent execution failed: x");
}

#[test]
fn io_and_configuration_errors_carry_their_cause() {
    assert_eq!(ContextError::Io(io("denied")).message(), "context discovery failed: denied");
    assert_eq!(McpError::Io(io("pipe")).message(), "MCP I/O failed: pipe");
    assert_eq!(McpError::Protocol("p".into()).message(), "MCP protocol error: p");
    assert_eq!(McpError::Remote("r".into()).message(), "MCP server returned an error: r");
    assert_eq!(PluginError::InvalidManifest("m".into()).message(), "invalid plugin manifest: m");
    assert_eq!(PluginError::Io(io("gone")).message(), "plugin I/O failed: gone");
    let toml_error = toml::from_str::<toml::Value>("= 1").unwrap_err();
    let shown = toml_error.to_string();
    assert_eq!(PluginError::Toml(toml_error).message(), format!("invalid plugin configuration: {shown}"));
    assert_eq!(SkillError::NotFound("s".into()).message(), "skill not found: s");
    assert_eq!(SkillError::TemplateNotFound("t".into()).message(), "agent template not found: t");
    assert_eq!(SkillError::Io(io("x")).message(), "skills I/O failed: x");
    assert_eq!(StorageError::Backend("db".into()).message(), "storage error: db");
    assert_eq!(ModelError::Unsupported("tool_calling".into()).message(), "model capability unsupported: tool_calling");
}
