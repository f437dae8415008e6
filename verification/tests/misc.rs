use nexus::agents::{sort_outcomes, AgentError, AgentOutcome, ParallelAgentScheduler};
use nexus::config::{default_agent_name, Config};
use nexus::domain::{SessionId, Task};
use nexus::sdk::{Nexus, RunRequest, SdkError};
use nexus::workspace::{
    agent_workspace_name, branch_name, validate_name, AgentWorkspace, CleanupPolicy, GitWorktree, WorkspaceError,
};

#[test]
fn defaults_are_stable() {
    assert_eq!(Config::default().default_agent, "nexus-engineer");
    assert_eq!(default_agent_name(), "nexus-engineer");
}

#[test]
fn tasks_keep_their_prompt_and_get_fresh_ids() {
    let a = Task::new("do it");
    let b = Task::new("do it");
    assert_eq!(a.prompt, "do it");
    assert_ne!(a.id, b.id);
    assert_ne!(SessionId::new(), SessionId::default());
}

#[test]
fn builder_requires_provider_then_model() {
    assert!(matches!(Nexus::<u8>::builder().build(), Err(SdkError::MissingProvider)));
    assert!(matches!(Nexus::<u8>::builder().model("m").build(), Err(SdkError::MissingProvider)));
    assert!(matches!(Nexus::builder().provider(1u8).build(), Err(SdkError::MissingModel)));
    let nexus = Nexus::builder()
        .config(Config { default_agent: "planner".to_owned() })
        .provider(7u8)
        .model("mock-1")
        .build()
        .expect("complete builder");
    assert_eq!(*nexus.runtime().provider(), 7);
    assert_eq!(nexus.runtime().model().0, "mock-1");
    assert_eq!(nexus.runtime().default_agent(), "planner");
    let request = RunRequest::new("hello");
    assert!(!request.cancellation.is_cancelled());
    let token = tokio_util::sync::CancellationToken::new();
    token.cancel();
    assert!(RunRequest::new("x").with_cancellation(token).cancellation.is_cancelled());
}

#[test]
fn workspace_names_reject_paths() {
    assert!(validate_name("../escape").is_err());
    assert!(validate_name("agent-auth_01").is_ok());
}

#[test]
fn workspace_name_rules() {
    for bad in ["", ".", "..", "a/b", "a b", "ü"] {
        match validate_name(bad) {
            Err(WorkspaceError::InvalidName(n)) => assert_eq!(n, bad),
            other => panic!("{bad:?} gave {other:?}"),
        }
    }
    assert!(validate_name("...").is_ok());
    assert!(validate_name(".hidden").is_ok());
    assert_eq!(branch_name("feature"), "nexus/feature");
    assert_eq!(agent_workspace_name("run", 0), "run-agent-1");
    assert_eq!(agent_workspace_name("run", 9), "run-agent-10");
    assert_eq!(agent_workspace_name("r", 122), "r-agent-123");
}

#[test]
fn cleanup_policy_is_explicit() {
    assert_eq!(CleanupPolicy::Keep, CleanupPolicy::Keep);
    assert!(matches!(WorkspaceError::InvalidAgentCount, WorkspaceError::InvalidAgentCount));
}

fn outcome(index: usize, summary: &str) -> AgentOutcome {
    AgentOutcome {
        agent_index: index,
        workspace: AgentWorkspace {
            agent_index: index,
            worktree: GitWorktree { name: format!("w{index}"), branch: format!("nexus/w{index}"), path: "/tmp".into() },
        },
        summary: summary.to_owned(),
    }
}

#[test]
fn scheduler_limits_and_outcome_order() {
    assert!(matches!(ParallelAgentScheduler::new(0).check_concurrency(), Err(AgentError::InvalidConcurrency)));
    assert!(ParallelAgentScheduler::new(2).check_concurrency().is_ok());
    assert_eq!(ParallelAgentScheduler::new(3).max_concurrency(), 3);
    let sorted = sort_outcomes(vec![outcome(2, "c"), outcome(0, "a"), outcome(1, "b")]);
    let summaries: Vec<&str> = sorted.iter().map(|o| o.summary.as_str()).collect();
    assert_eq!(summaries, vec!["a", "b", "c"]);
}
