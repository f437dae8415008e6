//! Isolated workspaces: Git worktrees on `nexus/<name>` branches, agent
//! allocation, cleanup policies and container backends.
//!
//! Running `git` and the container runtime is the caller's part; this module
//! holds the naming rules, the decisions and the parsing of `git` output.

use std::path::PathBuf;

use vstd::prelude::*;

use crate::text::{all_name_chars, chars_of, decimal, only_name_chars, to_decimal};

verus! {

/// A Git worktree managed by Nexus.
#[derive(Debug, Clone)]
pub struct GitWorktree {
    pub name: String,
    pub branch: String,
    pub path: PathBuf,
}

/// The workspace allocated to one agent of a parallel run.
#[derive(Debug, Clone)]
pub struct AgentWorkspace {
    pub agent_index: usize,
    pub worktree: GitWorktree,
}

/// What happens to a workspace when its agent is done.
#[derive(Debug, Clone, Copy, PartialEq, Eq, Structural)]
pub enum CleanupPolicy {
    Keep,
    RemoveClean,
    RemoveAlways,
}

/// Why a workspace operation failed.
#[derive(Debug)]
pub enum WorkspaceError {
    InvalidName(String),
    AlreadyExists(String),
    NotFound(String),
    ReviewRequired(String),
    InvalidAgentCount,
    InvalidContainerWorkspace(PathBuf),
    ContainerNotRunning(String),
    ContainerTimeout,
    Container(String),
    Git(String),
    Io(std::io::Error),
}

/// A workspace name is non-empty, is neither `.` nor `..`, and uses only
/// ASCII letters, digits, `-`, `_` and `.`; so it can never leave its directory.
pub open spec fn valid_workspace_name(name: Seq<char>) -> bool {
    &&& name.len() > 0
    &&& name != "."@
    &&& name != ".."@
    &&& all_name_chars(name)
}

/// Checks a workspace name; `InvalidName(name)` when it is not valid.
pub fn validate_name(name: &str) -> (r: Result<(), WorkspaceError>)
    ensures
        r is Ok <==> valid_workspace_name(name@),
        r matches Err(e) ==> (e matches WorkspaceError::InvalidName(n) && n@ == name@),
{
    let v = chars_of(name);
    proof {
        reveal_strlit(".");
        reveal_strlit("..");
    }
    let is_dot = v.len() == 1 && v[0] == '.';
    let is_dot_dot = v.len() == 2 && v[0] == '.' && v[1] == '.';
    proof {
        assert(is_dot == (name@ == "."@)) by {
            if v@.len() == 1 && v@[0] == '.' {
                assert(name@ =~= "."@);
            }
        }
        assert(is_dot_dot == (name@ == ".."@)) by {
            if v@.len() == 2 && v@[0] == '.' && v@[1] == '.' {
                assert(name@ =~= ".."@);
            }
        }
    }
    if v.len() == 0 || is_dot || is_dot_dot || !only_name_chars(name) {
        return Err(WorkspaceError::InvalidName(name.to_owned()));
    }
    Ok(())
}

/// The branch a worktree lives on.
pub open spec fn spec_branch_name(name: Seq<char>) -> Seq<char> {
    "nexus/"@ + name
}

pub fn branch_name(name: &str) -> (r: String)
    ensures
        r@ == spec_branch_name(name@),
{
    let mut b = "nexus/".to_owned();
    b.append(name);
    b
}

/// The name of agent `agent_index`'s workspace in run `run_name` (agents count from one).
pub open spec fn spec_agent_workspace_name(run_name: Seq<char>, agent_index: nat) -> Seq<char> {
    run_name + "-agent-"@ + decimal(agent_index + 1)
}

pub fn agent_workspace_name(run_name: &str, agent_index: usize) -> (r: String)
    requires
        agent_index < usize::MAX,
    ensures
        r@ == spec_agent_workspace_name(run_name@, agent_index as nat),
{
    let mut s = run_name.to_owned();
    s.append("-agent-");
    s.append(to_decimal(agent_index + 1).as_str());
    s
}

/// A parallel run needs at least one agent.
pub fn check_agent_count(count: usize) -> (r: Result<(), WorkspaceError>)
    ensures
        r is Ok <==> count > 0,
        r matches Err(e) ==> e is InvalidAgentCount,
{
    if count == 0 {
        return Err(WorkspaceError::InvalidAgentCount);
    }
    Ok(())
}

/// Merging a workspace needs explicit approval of its review.
pub fn check_review(name: &str, approved: bool) -> (r: Result<(), WorkspaceError>)
    ensures
        r is Ok <==> approved,
        r matches Err(e) ==> (e matches WorkspaceError::ReviewRequired(n) && n@ == name@),
{
    if !approved {
        return Err(WorkspaceError::ReviewRequired(name.to_owned()));
    }
    Ok(())
}

/// What cleaning up a workspace takes.
#[derive(Debug, Clone, Copy, PartialEq, Eq, Structural)]
pub enum CleanupStep {
    /// Leave the workspace; nothing was removed.
    Keep,
    /// Remove it even with uncommitted changes.
    ForceRemove,
    /// Read its status first; remove it (without force) only when clean.
    RemoveIfClean,
}

/// The cleanup a policy calls for.
pub fn cleanup_step(policy: CleanupPolicy) -> (r: CleanupStep)
    ensures
        policy == CleanupPolicy::Keep ==> r == CleanupStep::Keep,
        policy == CleanupPolicy::RemoveAlways ==> r == CleanupStep::ForceRemove,
        policy == CleanupPolicy::RemoveClean ==> r == CleanupStep::RemoveIfClean,
{
    match policy {
        CleanupPolicy::Keep => CleanupStep::Keep,
        CleanupPolicy::RemoveAlways => CleanupStep::ForceRemove,
        CleanupPolicy::RemoveClean => CleanupStep::RemoveIfClean,
    }
}

/// The worktree called `name` among those listed, or `NotFound(name)`.
pub fn find_worktree(listed: Vec<GitWorktree>, name: &str) -> (r: Result<GitWorktree, WorkspaceError>)
    ensures
        r is Ok <==> exists|i: int| 0 <= i < listed@.len() && listed@[i].name@ == name@,
        r matches Ok(w) ==> w.name@ == name@ && listed@.contains(w),
        r matches Err(e) ==> (e matches WorkspaceError::NotFound(n) && n@ == name@),
{
    let mut rest = listed;
    let ghost all = rest@;
    let n = rest.len();
    let mut i: usize = 0;
    while rest.len() > 0
        invariant
            rest@ == all.skip(i as int),
            all == listed@,
            all.len() == n,
            i <= all.len(),
            forall|j: int| 0 <= j < i ==> all[j].name@ != name@,
        decreases rest@.len(),
    {
        let w = rest.remove(0);
        assert(w == all[i as int]);
        assert(rest@ =~= all.skip(i + 1));
        if crate::text::str_eq(w.name.as_str(), name) {
            return Ok(w);
        }
        i = i + 1;
    }
    Err(WorkspaceError::NotFound(name.to_owned()))
}

} // verus!

verus! {

/// `path.display()` written out. Nothing is claimed of the text.
#[verifier::external_body]
fn path_display(path: &PathBuf) -> (r: String) {
    path.display().to_string()
}

impl WorkspaceError {
    /// Whether `text` is how the error reads.
    pub open spec fn message_is(&self, text: Seq<char>) -> bool {
        match self {
            WorkspaceError::InvalidName(n) => text == "workspace name is invalid: "@ + n@,
            WorkspaceError::AlreadyExists(n) => text == "workspace already exists: "@ + n@,
            WorkspaceError::NotFound(n) => text == "workspace not found: "@ + n@,
            WorkspaceError::ReviewRequired(n) => text
                == "explicit review approval is required before merging workspace: "@ + n@,
            WorkspaceError::InvalidAgentCount => text == "parallel agent count must be greater than zero"@,
            WorkspaceError::InvalidContainerWorkspace(_) => exists|t: Seq<char>|
                text == "container workspace path is invalid: "@ + t,
            WorkspaceError::ContainerNotRunning(n) => text == "container `"@ + n@ + "` is not running"@,
            WorkspaceError::ContainerTimeout => text == "container execution timed out"@,
            WorkspaceError::Container(m) => text == "container runtime failed: "@ + m@,
            WorkspaceError::Git(m) => text == "git command failed: "@ + m@,
            WorkspaceError::Io(e) => crate::text::displays_as(e, text),
        }
    }

    /// How the error reads.
    pub fn message(&self) -> (r: String)
        ensures
            self.message_is(r@),
    {
        match self {
            WorkspaceError::InvalidName(n) => crate::text::prefixed("workspace name is invalid: ", n.as_str()),
            WorkspaceError::AlreadyExists(n) => crate::text::prefixed("workspace already exists: ", n.as_str()),
            WorkspaceError::NotFound(n) => crate::text::prefixed("workspace not found: ", n.as_str()),
            WorkspaceError::ReviewRequired(n) => crate::text::prefixed(
                "explicit review approval is required before merging workspace: ",
                n.as_str(),
            ),
            WorkspaceError::InvalidAgentCount => "parallel agent count must be greater than zero".to_owned(),
            WorkspaceError::InvalidContainerWorkspace(p) => crate::text::prefixed(
                "container workspace path is invalid: ",
                path_display(p).as_str(),
            ),
            WorkspaceError::ContainerNotRunning(n) => {
                let mut s = crate::text::prefixed("container `", n.as_str());
                s.append("` is not running");
                s
            },
            WorkspaceError::ContainerTimeout => "container execution timed out".to_owned(),
            WorkspaceError::Container(m) => crate::text::prefixed("container runtime failed: ", m.as_str()),
            WorkspaceError::Git(m) => crate::text::prefixed("git command failed: ", m.as_str()),
            WorkspaceError::Io(e) => {
                let r = e.to_string();
                assert(crate::text::displays_as(e, r@));
                r
            },
        }
    }
}

} // verus!

verus! {

/// A workspace name is accepted exactly when it is non-empty, is neither
/// `.` nor `..`, and every character is an ASCII letter (either case), a
/// digit, `-`, `_` or `.`.
pub proof fn lemma_workspace_name_acceptance(name: Seq<char>)
    ensures
        valid_workspace_name(name) <==> {
            &&& name.len() > 0
            &&& !(name.len() == 1 && name[0] == '.')
            &&& !(name.len() == 2 && name[0] == '.' && name[1] == '.')
            &&& forall|i: int|
                0 <= i < name.len() ==> {
                    let c = #[trigger] name[i];
                    ('a' <= c && c <= 'z') || ('A' <= c && c <= 'Z') || ('0' <= c && c <= '9') || c == '-'
                        || c == '_' || c == '.'
                }
        },
{
    reveal_strlit(".");
    reveal_strlit("..");
    if name.len() == 1 && name[0] == '.' {
        assert(name =~= "."@);
    }
    if name.len() == 2 && name[0] == '.' && name[1] == '.' {
        assert(name =~= ".."@);
    }
    if name == "."@ {
        assert(name.len() == 1 && name[0] == '.');
    }
    if name == ".."@ {
        assert(name.len() == 2 && name[0] == '.' && name[1] == '.');
    }
}

} // verus!
