//! Project-local skills, lifecycle hooks, and reusable agent templates.
//!
//! Skills live under `.nexus/skills/<name>/SKILL.md`; agent templates under
//! `.nexus/agents/<name>.toml`; hook commands in `.nexus/hooks.toml`. Hook
//! commands are returned for the caller to run through Nexus permissions,
//! never run here.

use std::path::PathBuf;

use vstd::prelude::*;

use crate::order::{lemma_lex_total, lemma_lex_transitive, lex_le, name_le, Keyed};

verus! {

/// A skill: its directory name, the path of its `SKILL.md`, and that file's text.
#[derive(Debug, Clone)]
pub struct Skill {
    pub name: String,
    pub path: PathBuf,
    pub instructions: String,
}

impl Keyed for Skill {
    open spec fn key_le(&self, other: &Self) -> bool {
        lex_le(self.name@, other.name@)
    }

    proof fn lemma_key_total(a: &Self, b: &Self) {
        lemma_lex_total(a.name@, b.name@);
    }

    proof fn lemma_key_transitive(a: &Self, b: &Self, c: &Self) {
        lemma_lex_transitive(a.name@, b.name@, c.name@);
    }

    fn key_le_exec(&self, other: &Self) -> (r: bool) {
        name_le(self.name.as_str(), other.name.as_str())
    }
}

/// Why a skill, hook file or template could not be had.
#[derive(Debug)]
pub enum SkillError {
    NotFound(String),
    TemplateNotFound(String),
    Io(std::io::Error),
    Toml(toml::de::Error),
}

/// Orders discovered skills by name, keeping discovery order among equal names.
pub fn sort_skills(skills: Vec<Skill>) -> (r: Vec<Skill>)
    ensures
        r@ == crate::order::sort_spec(skills@),
        crate::order::sorted(r@),
        r@.to_multiset() == skills@.to_multiset(),
{
    crate::order::stable_sort(skills)
}

/// The index of the first skill called `name`, if any.
pub open spec fn first_named(skills: Seq<Skill>, name: Seq<char>) -> Option<int> {
    if exists|i: int| 0 <= i < skills.len() && skills[i].name@ == name {
        Some(
            choose|i: int|
                0 <= i < skills.len() && skills[i].name@ == name && forall|j: int|
                    0 <= j < i ==> skills[j].name@ != name,
        )
    } else {
        None
    }
}

/// Picks the skill called `name` out of the discovered skills (the first, if
/// several share the name); `NotFound(name)` when there is none.
pub fn load_skill(discovered: Vec<Skill>, name: &str) -> (r: Result<Skill, SkillError>)
    ensures
        r is Ok <==> exists|i: int| 0 <= i < discovered@.len() && discovered@[i].name@ == name@,
        r matches Ok(s) ==> (first_named(discovered@, name@) matches Some(i) && s
            == discovered@[i]),
        r matches Err(e) ==> (e matches SkillError::NotFound(n) && n@ == name@),
{
    let mut rest = discovered;
    let ghost all = rest@;
    let n = rest.len();
    let mut i: usize = 0;
    while rest.len() > 0
        invariant
            rest@ == all.skip(i as int),
            all == discovered@,
            all.len() == n,
            i <= all.len(),
            forall|j: int| 0 <= j < i ==> all[j].name@ != name@,
        decreases rest@.len(),
    {
        let s = rest.remove(0);
        assert(s == all[i as int]);
        assert(rest@ =~= all.skip(i + 1));
        if crate::text::str_eq(s.name.as_str(), name) {
            proof {
                let w = choose|k: int|
                    0 <= k < all.len() && all[k].name@ == name@ && forall|j: int|
                        0 <= j < k ==> all[j].name@ != name@;
                assert(0 <= i && all[i as int].name@ == name@);
                assert(first_named(all, name@) == Some(w));
                if w < i {
                } else if w > i {
                    assert(all[i as int].name@ != name@);
                }
            }
            return Ok(s);
        }
        i = i + 1;
    }
    Err(SkillError::NotFound(name.to_owned()))
}

/// A point in a run at which configured hook commands are due.
#[derive(Debug, Clone, Copy, PartialEq, Eq, Structural)]
pub enum HookEvent {
    RunStarted,
    BeforeModel,
    BeforeTool,
    AfterTool,
    RunCompleted,
    RunFailed,
}

/// The key under which each event's commands are configured.
pub open spec fn spec_event_key(event: HookEvent) -> Seq<char> {
    match event {
        HookEvent::RunStarted => "run_started"@,
        HookEvent::BeforeModel => "before_model"@,
        HookEvent::BeforeTool => "before_tool"@,
        HookEvent::AfterTool => "after_tool"@,
        HookEvent::RunCompleted => "run_completed"@,
        HookEvent::RunFailed => "run_failed"@,
    }
}

pub fn event_key(event: HookEvent) -> (r: &'static str)
    ensures
        r@ == spec_event_key(event),
{
    match event {
        HookEvent::RunStarted => "run_started",
        HookEvent::BeforeModel => "before_model",
        HookEvent::BeforeTool => "before_tool",
        HookEvent::AfterTool => "after_tool",
        HookEvent::RunCompleted => "run_completed",
        HookEvent::RunFailed => "run_failed",
    }
}

/// Hook commands per event key, in the order configured. A configuration
/// read from `hooks.toml` names each key once (`well_formed`).
#[derive(Debug, Clone)]
pub struct HookConfig {
    pub hooks: Vec<(String, Vec<String>)>,
}

impl HookConfig {
    /// No event key is configured twice, as in a map.
    pub open spec fn well_formed(&self) -> bool {
        forall|i: int, j: int|
            0 <= i < self.hooks@.len() && 0 <= j < self.hooks@.len() && self.hooks@[i].0@
                == self.hooks@[j].0@ ==> i == j
    }
}

/// In a well-formed configuration the commands of a key are those of its one entry.
pub proof fn lemma_hook_commands_of_entry(config: HookConfig, i: int)
    requires
        config.well_formed(),
        0 <= i < config.hooks@.len(),
    ensures
        hook_commands(config.hooks@, config.hooks@[i].0@) == config.hooks@[i].1@,
{
    let hs = config.hooks@;
    let key = hs[i].0@;
    assert(exists|k: int|
        0 <= k < hs.len() && hs[k].0@ == key && forall|j: int| 0 <= j < k ==> hs[j].0@ != key) by {
        assert forall|j: int| 0 <= j < i implies hs[j].0@ != key by {}
    }
    let w = choose|k: int|
        0 <= k < hs.len() && hs[k].0@ == key && forall|j: int| 0 <= j < k ==> hs[j].0@ != key;
    assert(w == i);
}

impl Default for HookConfig {
    fn default() -> (c: Self)
        ensures
            c.hooks@.len() == 0,
    {
        HookConfig { hooks: Vec::new() }
    }
}

/// The commands configured under `key` (the first entry with that key), or none.
pub open spec fn hook_commands(hooks: Seq<(String, Vec<String>)>, key: Seq<char>) -> Seq<String> {
    if exists|i: int| 0 <= i < hooks.len() && hooks[i].0@ == key {
        hooks[choose|i: int|
            0 <= i < hooks.len() && hooks[i].0@ == key && forall|j: int|
                0 <= j < i ==> hooks[j].0@ != key].1@
    } else {
        Seq::empty()
    }
}

impl HookConfig {
    /// The commands to run for `event`; empty when none are configured.
    pub fn commands(&self, event: HookEvent) -> (r: &[String])
        ensures
            r@ == hook_commands(self.hooks@, spec_event_key(event)),
    {
        let key = event_key(event);
        let mut i: usize = 0;
        while i < self.hooks.len()
            invariant
                key@ == spec_event_key(event),
                i <= self.hooks@.len(),
                forall|j: int| 0 <= j < i ==> self.hooks@[j].0@ != key@,
            decreases self.hooks@.len() - i,
        {
            if crate::text::str_eq(self.hooks[i].0.as_str(), key) {
                proof {
                    let hs = self.hooks@;
                    let w = choose|k: int|
                        0 <= k < hs.len() && hs[k].0@ == key@ && forall|j: int|
                            0 <= j < k ==> hs[j].0@ != key@;
                    if w < i {
                    } else if w > i {
                        assert(hs[i as int].0@ != key@);
                    }
                }
                return self.hooks[i].1.as_slice();
            }
            i = i + 1;
        }
        &[]
    }
}

/// A reusable agent definition: instructions plus the skills it draws on.
#[derive(Debug, Clone)]
pub struct AgentTemplate {
    pub name: String,
    pub description: String,
    pub instructions: String,
    pub skills: Vec<String>,
}

} // verus!

verus! {

impl SkillError {
    /// Whether `text` is how the error reads.
    pub open spec fn message_is(&self, text: Seq<char>) -> bool {
        match self {
            SkillError::NotFound(n) => text == "skill not found: "@ + n@,
            SkillError::TemplateNotFound(n) => text == "agent template not found: "@ + n@,
            SkillError::Io(e) => exists|t: Seq<char>|
                text == "skills I/O failed: "@ + t && crate::text::displays_as(e, t),
            SkillError::Toml(e) => exists|t: Seq<char>|
                text == "invalid skills configuration: "@ + t && crate::text::displays_as(e, t),
        }
    }

    /// How the error reads.
    pub fn message(&self) -> (r: String)
        ensures
            self.message_is(r@),
    {
        match self {
            SkillError::NotFound(n) => crate::text::prefixed("skill not found: ", n.as_str()),
            SkillError::TemplateNotFound(n) => crate::text::prefixed("agent template not found: ", n.as_str()),
            SkillError::Io(e) => crate::text::prefixed_display("skills I/O failed: ", e),
            SkillError::Toml(e) => crate::text::prefixed_display("invalid skills configuration: ", e),
        }
    }
}

} // verus!
