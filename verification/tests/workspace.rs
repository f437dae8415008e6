use std::path::PathBuf;

use nexus::container::{
    ContainerLifecycleState, ContainerWorkspace, ContainerWorkspaceBackend, WorkspaceBackend,
};
use nexus::text::{to_decimal, to_decimal_wide};
use nexus::workspace::{
    check_agent_count, check_review, cleanup_step, find_worktree, CleanupPolicy, CleanupStep, GitWorktree,
    WorkspaceError,
};
use nexus::worktree_list::{list_worktrees, parse_worktree_list};

#[test]
fn container_backend_is_safe_by_default() {
    let backend = ContainerWorkspaceBackend::new("docker", "rust:latest");
    assert!(backend.describe().contains("network=false"));
    assert!(backend.describe().contains("memory_limit=unlimited"));
    assert_eq!(
        backend.describe(),
        "runtime=docker image=rust:latest network=false read_only_root=true memory_limit=unlimited cpu_limit=unlimited"
    );
    assert_eq!(backend.name(), "container");
    assert_eq!(backend.runtime(), "docker");
    assert_eq!(backend.image(), "rust:latest");
}

#[test]
fn container_lifecycle_states_are_explicit() {
    assert_ne!(ContainerLifecycleState::Provisioned, ContainerLifecycleState::Running);
}

#[test]
fn container_settings_shape_the_runtime_arguments() {
    let backend = ContainerWorkspaceBackend::new("podman", "alpine")
        .with_memory_limit("512m")
        .with_cpu_limit("2");
    assert_eq!(
        backend.create_args("ws", "/tmp/ws:/workspace"),
        vec![
            "create", "--name", "ws", "--workdir", "/workspace", "--volume", "/tmp/ws:/workspace", "--read-only",
            "--network", "none", "--memory", "512m", "--cpus", "2", "alpine", "sleep", "infinity",
        ]
    );
    let open = ContainerWorkspaceBackend::new("docker", "img").with_network(true).with_read_only_root(false);
    assert_eq!(
        open.run_args("/w:/workspace", "cargo", &vec!["test".to_string(), "-q".to_string()]),
        vec!["run", "--rm", "--workdir", "/workspace", "--volume", "/w:/workspace", "img", "cargo", "test", "-q"]
    );
    assert_eq!(
        open.describe(),
        "runtime=docker image=img network=true read_only_root=false memory_limit=unlimited cpu_limit=unlimited"
    );
}

#[test]
fn container_lifecycle_runs_commands_only_when_needed() {
    let mut c = ContainerWorkspace {
        name: "box".to_string(),
        workspace: PathBuf::from("/tmp/box"),
        state: ContainerLifecycleState::Provisioned,
    };
    assert!(matches!(c.check_running(), Err(WorkspaceError::ContainerNotRunning(n)) if n == "box"));
    c.mark_running();
    assert!(c.check_running().is_ok());
    assert!(c.stop());
    assert_eq!(c.state, ContainerLifecycleState::Stopped);
    assert!(c.remove());
    assert_eq!(c.state, ContainerLifecycleState::Removed);
    assert!(!c.remove());
    assert!(!c.stop());
    assert_eq!(c.state, ContainerLifecycleState::Removed);
}

#[test]
fn cleanup_and_review_rules() {
    assert_eq!(cleanup_step(CleanupPolicy::Keep), CleanupStep::Keep);
    assert_eq!(cleanup_step(CleanupPolicy::RemoveAlways), CleanupStep::ForceRemove);
    assert_eq!(cleanup_step(CleanupPolicy::RemoveClean), CleanupStep::RemoveIfClean);
    assert!(check_review("feature", true).is_ok());
    assert!(matches!(check_review("feature", false), Err(WorkspaceError::ReviewRequired(n)) if n == "feature"));
    assert!(matches!(check_agent_count(0), Err(WorkspaceError::InvalidAgentCount)));
    assert!(check_agent_count(3).is_ok());
}

fn tree(name: &str) -> GitWorktree {
    GitWorktree {
        name: name.to_string(),
        branch: format!("nexus/{name}"),
        path: PathBuf::from(format!("/repo/.nexus/worktrees/{name}")),
    }
}

#[test]
fn worktrees_are_found_by_name() {
    let found = find_worktree(vec![tree("a"), tree("b")], "b").unwrap();
    assert_eq!(found.branch, "nexus/b");
    assert!(matches!(find_worktree(vec![tree("a")], "c"), Err(WorkspaceError::NotFound(n)) if n == "c"));
    assert!(find_worktree(Vec::new(), "a").is_err());
}

const LISTING: &str = "worktree /repo\nHEAD 0123\nbranch refs/heads/main\n\n\
worktree /repo/.nexus/worktrees/zeta\r\nHEAD 4567\r\nbranch refs/heads/nexus/zeta\r\n\r\n\
worktree /repo/.nexus/worktrees/alpha\nHEAD 89ab\nbranch refs/heads/nexus/alpha\n\n\
worktree /repo/.nexus/worktrees/nested/deep\nbranch refs/heads/nexus/deep\n\n\
worktree /repo/.nexus/worktrees/detached\nHEAD cdef\ndetached\n";

#[test]
fn worktree_listing_keeps_nexus_worktrees_in_order() {
    let parsed = parse_worktree_list(LISTING, "/repo/.nexus/worktrees");
    let names: Vec<&str> = parsed.iter().map(|w| w.name.as_str()).collect();
    assert_eq!(names, vec!["zeta", "alpha"]);
    assert_eq!(parsed[0].branch, "nexus/zeta");
    assert_eq!(parsed[0].path, "/repo/.nexus/worktrees/zeta");
    assert_eq!(parsed[1].branch, "nexus/alpha");
    let sorted = list_worktrees(LISTING, "/repo/.nexus/worktrees");
    let names: Vec<&str> = sorted.iter().map(|w| w.name.as_str()).collect();
    assert_eq!(names, vec!["alpha", "zeta"]);
}

#[test]
fn worktree_listing_without_final_blank_line_keeps_last_block() {
    let out = "worktree /r/w/one\nbranch refs/heads/nexus/one";
    let parsed = parse_worktree_list(out, "/r/w");
    assert_eq!(parsed.len(), 1);
    assert_eq!(parsed[0].name, "one");
    assert!(parse_worktree_list("", "/r/w").is_empty());
    assert!(parse_worktree_list("worktree /r/wx/one\nbranch refs/heads/x\n", "/r/w").is_empty());
}

#[test]
fn decimal_text() {
    assert_eq!(to_decimal(0), "0");
    assert_eq!(to_decimal(7), "7");
    assert_eq!(to_decimal(1203), "1203");
    assert_eq!(to_decimal_wide(340_282_366_920_938_463_463_374_607_431_768_211_455), "340282366920938463463374607431768211455");
}
