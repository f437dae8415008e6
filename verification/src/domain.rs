//! Stable domain contracts: session identifiers and tasks.

use uuid::Uuid;
use vstd::prelude::*;

verus! {

/// A fresh random (version 4) identifier from `uuid::Uuid::new_v4`.
/// Nothing is claimed of its value: it comes from the random number generator.
#[verifier::external_body]
fn random_uuid() -> Uuid {
    Uuid::new_v4()
}

/// Identifies a session.
#[derive(Debug, Clone, PartialEq, Eq, Hash)]
pub struct SessionId(pub Uuid);

impl SessionId {
    /// A new session identifier drawn at random.
    pub fn new() -> Self {
        SessionId(random_uuid())
    }
}

impl Default for SessionId {
    fn default() -> Self {
        Self::new()
    }
}

/// A unit of work: a fresh identifier and the prompt it carries.
#[derive(Debug, Clone)]
pub struct Task {
    pub id: Uuid,
    pub prompt: String,
}

impl Task {
    pub fn new(prompt: &str) -> (t: Self)
        ensures
            t.prompt@ == prompt@,
    {
        Task { id: random_uuid(), prompt: prompt.to_owned() }
    }
}

} // verus!
