//! Configuration contracts for Nexus.

use vstd::prelude::*;

verus! {

/// The resolved configuration.
#[derive(Debug, Clone)]
pub struct Config {
    pub default_agent: String,
}

/// The agent used when none is named.
pub open spec fn spec_default_agent_name() -> Seq<char> {
    "nexus-engineer"@
}

pub fn default_agent_name() -> (r: String)
    ensures
        r@ == spec_default_agent_name(),
{
    "nexus-engineer".to_owned()
}

impl Default for Config {
    fn default() -> (c: Self)
        ensures
            c.default_agent@ == spec_default_agent_name(),
    {
        Config { default_agent: default_agent_name() }
    }
}

} // verus!
