//! Storage contracts for sessions and execution history.

use vstd::prelude::*;

verus! {

/// Why the session store failed.
#[derive(Debug)]
pub enum StorageError {
    Backend(String),
}

} // verus!

verus! {

impl StorageError {
    /// Whether `text` is how the error reads.
    pub open spec fn message_is(&self, text: Seq<char>) -> bool {
        match self {
            StorageError::Backend(m) => text == "storage error: "@ + m@,
        }
    }

    /// How the error reads.
    pub fn message(&self) -> (r: String)
        ensures
            self.message_is(r@),
    {
        match self {
            StorageError::Backend(m) => crate::text::prefixed("storage error: ", m.as_str()),
        }
    }
}

} // verus!
