//! Parallel agent orchestration over isolated workspaces.
//!
//! Running the agents concurrently is the caller's part; this module holds
//! the scheduler's limits and puts the outcomes in agent order.

use vstd::prelude::*;

use crate::order::Keyed;
use crate::workspace::{AgentWorkspace, WorkspaceError};

verus! {

/// What one agent produced, in its workspace.
#[derive(Debug, Clone)]
pub struct AgentOutcome {
    pub agent_index: usize,
    pub workspace: AgentWorkspace,
    pub summary: String,
}

impl Keyed for AgentOutcome {
    open spec fn key_le(&self, other: &Self) -> bool {
        self.agent_index <= other.agent_index
    }

    proof fn lemma_key_total(a: &Self, b: &Self) {
    }

    proof fn lemma_key_transitive(a: &Self, b: &Self, c: &Self) {
    }

    fn key_le_exec(&self, other: &Self) -> (r: bool) {
        self.agent_index <= other.agent_index
    }
}

/// Why a parallel run failed.
#[derive(Debug)]
pub enum AgentError {
    Workspace(WorkspaceError),
    InvalidConcurrency,
    Execution(String),
}

/// Runs agents with at most `max_concurrency` of them at a time.
pub struct ParallelAgentScheduler {
    max_concurrency: usize,
}

impl ParallelAgentScheduler {
    pub closed spec fn limit(&self) -> usize {
        self.max_concurrency
    }

    pub fn new(max_concurrency: usize) -> (s: Self)
        ensures
            s.limit() == max_concurrency,
    {
        ParallelAgentScheduler { max_concurrency }
    }

    pub fn max_concurrency(&self) -> (r: usize)
        ensures
            r == self.limit(),
    {
        self.max_concurrency
    }

    /// A run needs room for at least one agent at a time.
    pub fn check_concurrency(&self) -> (r: Result<(), AgentError>)
        ensures
            r is Ok <==> self.limit() > 0,
            r matches Err(e) ==> e is InvalidConcurrency,
    {
        if self.max_concurrency == 0 {
            return Err(AgentError::InvalidConcurrency);
        }
        Ok(())
    }
}

/// Puts finished agents' outcomes in agent order (they finish in any order).
pub fn sort_outcomes(outcomes: Vec<AgentOutcome>) -> (r: Vec<AgentOutcome>)
    ensures
        r@ == crate::order::sort_spec(outcomes@),
        crate::order::sorted(r@),
        r@.to_multiset() == outcomes@.to_multiset(),
{
    crate::order::stable_sort(outcomes)
}

} // verus!

verus! {

impl AgentError {
    /// Whether `text` is how the error reads.
    pub open spec fn message_is(&self, text: Seq<char>) -> bool {
        match self {
            AgentError::Workspace(e) => e.message_is(text),
            AgentError::InvalidConcurrency => text == "parallel agent concurrency must be greater than zero"@,
            AgentError::Execution(m) => text == "agent execution failed: "@ + m@,
        }
    }

    /// How the error reads.
    pub fn message(&self) -> (r: String)
        ensures
            self.message_is(r@),
    {
        match self {
            AgentError::Workspace(e) => e.message(),
            AgentError::InvalidConcurrency => "parallel agent concurrency must be greater than zero".to_owned(),
            AgentError::Execution(m) => crate::text::prefixed("agent execution failed: ", m.as_str()),
        }
    }
}

} // verus!
