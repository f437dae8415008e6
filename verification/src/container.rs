//! Container workspace backends: safe-by-default settings, the runtime's
//! argument lists, and the container lifecycle.
//!
//! Running the container runtime is the caller's part.

use std::path::PathBuf;

use vstd::prelude::*;

use crate::text::texts;
use crate::workspace::WorkspaceError;

verus! {

/// A workspace backend describes itself for diagnostics.
pub trait WorkspaceBackend: Send + Sync {
    fn name(&self) -> &str;

    fn describe(&self) -> String;
}

/// Where a container is in its life.
#[derive(Debug, Clone, Copy, PartialEq, Eq, Structural)]
pub enum ContainerLifecycleState {
    Provisioned,
    Running,
    Stopped,
    Removed,
}

/// A provisioned container and the workspace mounted into it.
#[derive(Debug, Clone)]
pub struct ContainerWorkspace {
    pub name: String,
    pub workspace: PathBuf,
    pub state: ContainerLifecycleState,
}

/// How a command in a container ended.
#[derive(Debug, Clone, Copy, PartialEq, Eq, Structural)]
pub struct ContainerExecution {
    pub success: bool,
    pub exit_code: Option<i32>,
}

impl ContainerWorkspace {
    /// Commands run only in a running container.
    pub fn check_running(&self) -> (r: Result<(), WorkspaceError>)
        ensures
            r is Ok <==> self.state == ContainerLifecycleState::Running,
            r matches Err(e) ==> (e matches WorkspaceError::ContainerNotRunning(n) && n@ == self.name@),
    {
        if self.state != ContainerLifecycleState::Running {
            return Err(WorkspaceError::ContainerNotRunning(self.name.clone()));
        }
        Ok(())
    }

    /// The runtime started the container.
    pub fn mark_running(&mut self)
        ensures
            final(self).state == ContainerLifecycleState::Running,
            final(self).name == old(self).name,
            final(self).workspace == old(self).workspace,
    {
        self.state = ContainerLifecycleState::Running;
    }

    /// Stops the container unless it was removed; the answer says whether the
    /// runtime's stop command is to be run. A removed container stays removed.
    pub fn stop(&mut self) -> (run_command: bool)
        ensures
            run_command == (old(self).state != ContainerLifecycleState::Removed),
            final(self).state == if old(self).state == ContainerLifecycleState::Removed {
                ContainerLifecycleState::Removed
            } else {
                ContainerLifecycleState::Stopped
            },
            final(self).name == old(self).name,
            final(self).workspace == old(self).workspace,
    {
        if self.state == ContainerLifecycleState::Removed {
            return false;
        }
        self.state = ContainerLifecycleState::Stopped;
        true
    }

    /// Removes the container unless it was removed already; the answer says
    /// whether the runtime's remove command is to be run.
    pub fn remove(&mut self) -> (run_command: bool)
        ensures
            run_command == (old(self).state != ContainerLifecycleState::Removed),
            final(self).state == ContainerLifecycleState::Removed,
            final(self).name == old(self).name,
            final(self).workspace == old(self).workspace,
    {
        if self.state == ContainerLifecycleState::Removed {
            return false;
        }
        self.state = ContainerLifecycleState::Removed;
        true
    }
}

/// Runs workspaces in containers: no network and a read-only root unless
/// asked otherwise, with optional memory and CPU limits.
#[derive(Debug, Clone)]
pub struct ContainerWorkspaceBackend {
    runtime: String,
    image: String,
    network_enabled: bool,
    read_only_root: bool,
    memory_limit: Option<String>,
    cpu_limit: Option<String>,
}

pub open spec fn bool_text(b: bool) -> Seq<char> {
    if b {
        "true"@
    } else {
        "false"@
    }
}

pub open spec fn limit_text(l: Option<String>) -> Seq<char> {
    match l {
        Some(v) => v@,
        None => "unlimited"@,
    }
}

fn bool_str(b: bool) -> (r: &'static str)
    ensures
        r@ == bool_text(b),
{
    if b {
        "true"
    } else {
        "false"
    }
}

fn limit_str(l: &Option<String>) -> (r: &str)
    ensures
        r@ == limit_text(*l),
{
    match l {
        Some(v) => v.as_str(),
        None => "unlimited",
    }
}

/// Appends one string to `v`.
fn push_one(v: &mut Vec<String>, item: &str)
    ensures
        texts(final(v)@) == texts(old(v)@).push(item@),
{
    v.push(item.to_owned());
    assert(texts(v@) =~= texts(old(v)@).push(item@));
}

/// The arguments that create a container with this backend's settings.
pub open spec fn spec_create_args(b: ContainerWorkspaceBackend, name: Seq<char>, mount: Seq<char>) -> Seq<Seq<char>> {
    seq!["create"@, "--name"@, name, "--workdir"@, "/workspace"@, "--volume"@, mount]
        + b.settings_args() + seq![b.image_view(), "sleep"@, "infinity"@]
}

/// The arguments that run a program in a throwaway container.
pub open spec fn spec_run_args(
    b: ContainerWorkspaceBackend,
    mount: Seq<char>,
    program: Seq<char>,
    args: Seq<Seq<char>>,
) -> Seq<Seq<char>> {
    seq!["run"@, "--rm"@, "--workdir"@, "/workspace"@, "--volume"@, mount] + b.settings_args()
        + seq![b.image_view(), program] + args
}

impl ContainerWorkspaceBackend {
    pub closed spec fn runtime_view(&self) -> Seq<char> {
        self.runtime@
    }

    pub closed spec fn image_view(&self) -> Seq<char> {
        self.image@
    }

    pub closed spec fn network_view(&self) -> bool {
        self.network_enabled
    }

    pub closed spec fn read_only_view(&self) -> bool {
        self.read_only_root
    }

    pub closed spec fn memory_view(&self) -> Option<String> {
        self.memory_limit
    }

    pub closed spec fn cpu_view(&self) -> Option<String> {
        self.cpu_limit
    }

    /// The isolation flags that follow from the settings.
    pub open spec fn settings_args(self) -> Seq<Seq<char>> {
        (if self.read_only_view() {
            seq!["--read-only"@]
        } else {
            Seq::empty()
        }) + (if !self.network_view() {
            seq!["--network"@, "none"@]
        } else {
            Seq::empty()
        }) + (match self.memory_view() {
            Some(l) => seq!["--memory"@, l@],
            None => Seq::empty(),
        }) + (match self.cpu_view() {
            Some(l) => seq!["--cpus"@, l@],
            None => Seq::empty(),
        })
    }

    /// A backend with the network off, a read-only root and no limits.
    pub fn new(runtime: &str, image: &str) -> (b: Self)
        ensures
            b.runtime_view() == runtime@,
            b.image_view() == image@,
            !b.network_view(),
            b.read_only_view(),
            b.memory_view() is None,
            b.cpu_view() is None,
    {
        ContainerWorkspaceBackend {
            runtime: runtime.to_owned(),
            image: image.to_owned(),
            network_enabled: false,
            read_only_root: true,
            memory_limit: None,
            cpu_limit: None,
        }
    }

    pub fn with_network(self, enabled: bool) -> (b: Self)
        ensures
            b.network_view() == enabled,
            b.runtime_view() == self.runtime_view(),
            b.image_view() == self.image_view(),
            b.read_only_view() == self.read_only_view(),
            b.memory_view() == self.memory_view(),
            b.cpu_view() == self.cpu_view(),
    {
        ContainerWorkspaceBackend { network_enabled: enabled, ..self }
    }

    pub fn with_read_only_root(self, enabled: bool) -> (b: Self)
        ensures
            b.read_only_view() == enabled,
            b.runtime_view() == self.runtime_view(),
            b.image_view() == self.image_view(),
            b.network_view() == self.network_view(),
            b.memory_view() == self.memory_view(),
            b.cpu_view() == self.cpu_view(),
    {
        ContainerWorkspaceBackend { read_only_root: enabled, ..self }
    }

    pub fn with_memory_limit(self, limit: &str) -> (b: Self)
        ensures
            b.memory_view() matches Some(l) && l@ == limit@,
            b.runtime_view() == self.runtime_view(),
            b.image_view() == self.image_view(),
            b.network_view() == self.network_view(),
            b.read_only_view() == self.read_only_view(),
            b.cpu_view() == self.cpu_view(),
    {
        ContainerWorkspaceBackend { memory_limit: Some(limit.to_owned()), ..self }
    }

    pub fn with_cpu_limit(self, limit: &str) -> (b: Self)
        ensures
            b.cpu_view() matches Some(l) && l@ == limit@,
            b.runtime_view() == self.runtime_view(),
            b.image_view() == self.image_view(),
            b.network_view() == self.network_view(),
            b.read_only_view() == self.read_only_view(),
            b.memory_view() == self.memory_view(),
    {
        ContainerWorkspaceBackend { cpu_limit: Some(limit.to_owned()), ..self }
    }

    pub fn runtime(&self) -> (r: &str)
        ensures
            r@ == self.runtime_view(),
    {
        self.runtime.as_str()
    }

    pub fn image(&self) -> (r: &str)
        ensures
            r@ == self.image_view(),
    {
        self.image.as_str()
    }

    fn push_settings(&self, v: &mut Vec<String>)
        ensures
            texts(final(v)@) == texts(old(v)@) + self.settings_args(),
    {
        let ghost start = texts(v@);
        if self.read_only_root {
            push_one(v, "--read-only");
        }
        let ghost a1 = texts(v@);
        assert(a1 =~= start + (if self.read_only_root {
            seq!["--read-only"@]
        } else {
            Seq::empty()
        }));
        if !self.network_enabled {
            push_one(v, "--network");
            push_one(v, "none");
        }
        let ghost a2 = texts(v@);
        assert(a2 =~= a1 + (if !self.network_enabled {
            seq!["--network"@, "none"@]
        } else {
            Seq::empty()
        }));
        match &self.memory_limit {
            Some(l) => {
                push_one(v, "--memory");
                push_one(v, l.as_str());
            },
            None => {},
        }
        let ghost a3 = texts(v@);
        assert(a3 =~= a2 + (match self.memory_limit {
            Some(l) => seq!["--memory"@, l@],
            None => Seq::empty(),
        }));
        match &self.cpu_limit {
            Some(l) => {
                push_one(v, "--cpus");
                push_one(v, l.as_str());
            },
            None => {},
        }
        let ghost a4 = texts(v@);
        assert(a4 =~= a3 + (match self.cpu_limit {
            Some(l) => seq!["--cpus"@, l@],
            None => Seq::empty(),
        }));
    }

    /// The runtime arguments that create (not start) a sleeping container
    /// named `name` with the workspace mount `mount` (`<path>:/workspace`).
    pub fn create_args(&self, name: &str, mount: &str) -> (r: Vec<String>)
        ensures
            texts(r@) == spec_create_args(*self, name@, mount@),
    {
        let mut v: Vec<String> = Vec::new();
        push_one(&mut v, "create");
        push_one(&mut v, "--name");
        push_one(&mut v, name);
        push_one(&mut v, "--workdir");
        push_one(&mut v, "/workspace");
        push_one(&mut v, "--volume");
        push_one(&mut v, mount);
        let ghost a0 = texts(v@);
        assert(a0 =~= seq!["create"@, "--name"@, name@, "--workdir"@, "/workspace"@, "--volume"@, mount@]);
        self.push_settings(&mut v);
        let ghost a1 = texts(v@);
        push_one(&mut v, self.image.as_str());
        push_one(&mut v, "sleep");
        push_one(&mut v, "infinity");
        assert(texts(v@) =~= a1 + seq![self.image@, "sleep"@, "infinity"@]);
        v
    }

    /// The runtime arguments that run `program` with `args` in a throwaway
    /// container with the workspace mounted.
    pub fn run_args(&self, mount: &str, program: &str, args: &Vec<String>) -> (r: Vec<String>)
        ensures
            texts(r@) == spec_run_args(*self, mount@, program@, texts(args@)),
    {
        let mut v: Vec<String> = Vec::new();
        push_one(&mut v, "run");
        push_one(&mut v, "--rm");
        push_one(&mut v, "--workdir");
        push_one(&mut v, "/workspace");
        push_one(&mut v, "--volume");
        push_one(&mut v, mount);
        let ghost a0 = texts(v@);
        assert(a0 =~= seq!["run"@, "--rm"@, "--workdir"@, "/workspace"@, "--volume"@, mount@]);
        self.push_settings(&mut v);
        let ghost a1 = texts(v@);
        push_one(&mut v, self.image.as_str());
        push_one(&mut v, program);
        let ghost a2 = texts(v@);
        assert(a2 =~= a1 + seq![self.image@, program@]);
        let mut k: usize = 0;
        while k < args.len()
            invariant
                k <= args@.len(),
                texts(v@) == a2 + texts(args@).take(k as int),
            decreases args@.len() - k,
        {
            push_one(&mut v, args[k].as_str());
            assert(texts(args@).take(k + 1) =~= texts(args@).take(k as int).push(args@[k as int]@));
            k = k + 1;
        }
        assert(texts(args@).take(args@.len() as int) =~= texts(args@));
        v
    }
}

/// What `describe` says of a backend.
pub open spec fn spec_describe(b: ContainerWorkspaceBackend) -> Seq<char> {
    "runtime="@ + b.runtime_view() + " image="@ + b.image_view() + " network="@ + bool_text(
        b.network_view(),
    ) + " read_only_root="@ + bool_text(b.read_only_view()) + " memory_limit="@ + limit_text(
        b.memory_view(),
    ) + " cpu_limit="@ + limit_text(b.cpu_view())
}

impl WorkspaceBackend for ContainerWorkspaceBackend {
    fn name(&self) -> (r: &str)
        ensures
            r@ == "container"@,
    {
        "container"
    }

    fn describe(&self) -> (r: String)
        ensures
            r@ == spec_describe(*self),
    {
        let mut s = "runtime=".to_owned();
        s.append(self.runtime.as_str());
        s.append(" image=");
        s.append(self.image.as_str());
        s.append(" network=");
        s.append(bool_str(self.network_enabled));
        s.append(" read_only_root=");
        s.append(bool_str(self.read_only_root));
        s.append(" memory_limit=");
        s.append(limit_str(&self.memory_limit));
        s.append(" cpu_limit=");
        s.append(limit_str(&self.cpu_limit));
        s
    }
}

} // verus!

verus! {

/// `flag` is followed directly by `value` somewhere in `args`.
pub open spec fn has_pair(args: Seq<Seq<char>>, flag: Seq<char>, value: Seq<char>) -> bool {
    exists|i: int| 0 <= i && i + 1 < args.len() && #[trigger] args[i] == flag && args[i + 1] == value
}

/// The parts of the isolation flags, in order: read-only root, no network,
/// memory limit, CPU limit.
proof fn lemma_settings_parts(b: ContainerWorkspaceBackend)
    ensures
        ({
            let s = b.settings_args();
            let ro = if b.read_only_view() { 1int } else { 0int };
            let net = if !b.network_view() { 2int } else { 0int };
            let mem = if b.memory_view() is Some { 2int } else { 0int };
            &&& b.read_only_view() ==> s[0] == "--read-only"@
            &&& !b.network_view() ==> s[ro] == "--network"@ && s[ro + 1] == "none"@
            &&& (b.memory_view() matches Some(l) ==> s[ro + net] == "--memory"@ && s[ro + net + 1] == l@)
            &&& (b.cpu_view() matches Some(l) ==> s[ro + net + mem] == "--cpus"@ && s[ro + net + mem + 1] == l@)
            &&& s.len() == ro + net + mem + if b.cpu_view() is Some { 2int } else { 0int }
        }),
{
}

/// Every setting reaches the runtime: with a CPU or memory limit the
/// create and run arguments carry `--cpus` or `--memory` followed by the
/// limit, whatever the other settings; without network they carry
/// `--network none`; with a read-only root, `--read-only`.
pub proof fn lemma_settings_reach_the_runtime(
    b: ContainerWorkspaceBackend,
    name: Seq<char>,
    mount: Seq<char>,
    program: Seq<char>,
    args: Seq<Seq<char>>,
)
    ensures
        b.cpu_view() matches Some(l) ==> has_pair(spec_create_args(b, name, mount), "--cpus"@, l@)
            && has_pair(spec_run_args(b, mount, program, args), "--cpus"@, l@),
        b.memory_view() matches Some(l) ==> has_pair(spec_create_args(b, name, mount), "--memory"@, l@)
            && has_pair(spec_run_args(b, mount, program, args), "--memory"@, l@),
        !b.network_view() ==> has_pair(spec_create_args(b, name, mount), "--network"@, "none"@)
            && has_pair(spec_run_args(b, mount, program, args), "--network"@, "none"@),
        b.read_only_view() ==> spec_create_args(b, name, mount).contains("--read-only"@)
            && spec_run_args(b, mount, program, args).contains("--read-only"@),
{
    lemma_settings_parts(b);
    let s = b.settings_args();
    let c = spec_create_args(b, name, mount);
    let r = spec_run_args(b, mount, program, args);
    let ro = if b.read_only_view() { 1int } else { 0int };
    let net = if !b.network_view() { 2int } else { 0int };
    let mem = if b.memory_view() is Some { 2int } else { 0int };
    assert forall|k: int| 0 <= k < s.len() implies c[7 + k] == s[k] && r[6 + k] == s[k] by {}
    if let Some(l) = b.cpu_view() {
        let k = ro + net + mem;
        assert(c[7 + k] == "--cpus"@ && c[7 + k + 1] == l@);
        assert(r[6 + k] == "--cpus"@ && r[6 + k + 1] == l@);
    }
    if let Some(l) = b.memory_view() {
        let k = ro + net;
        assert(c[7 + k] == "--memory"@ && c[7 + k + 1] == l@);
        assert(r[6 + k] == "--memory"@ && r[6 + k + 1] == l@);
    }
    if !b.network_view() {
        assert(c[7 + ro] == "--network"@ && c[7 + ro + 1] == "none"@);
        assert(r[6 + ro] == "--network"@ && r[6 + ro + 1] == "none"@);
    }
    if b.read_only_view() {
        assert(c[7] == "--read-only"@);
        assert(r[6] == "--read-only"@);
    }
}

} // verus!
