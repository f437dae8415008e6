//! Tool contracts, the tool registry, and the input rules of the built-in
//! filesystem and shell tools.
//!
//! Running a tool (reading a file, spawning a process) is the caller's part;
//! this module decides what may run, where, and for how long.

use std::path::PathBuf;
use std::time::Duration;

use vstd::prelude::*;

use crate::json::{Json, JsonNumber};
use crate::order::{lemma_lex_total, lemma_lex_transitive, lex_le, name_le, Keyed};
use crate::text::{decimal, seq_starts_with, str_eq};

verus! {

/// The input handed to a tool.
#[derive(Debug, Clone)]
pub struct ToolRequest {
    pub input: serde_json::Value,
}

/// What a tool produced.
#[derive(Debug, Clone)]
pub struct ToolResponse {
    pub output: serde_json::Value,
}

/// A tool's name, description and the JSON schema of its input.
#[derive(Debug)]
pub struct ToolMetadata {
    pub name: String,
    pub description: String,
    pub input_schema: serde_json::Value,
}

impl Clone for ToolMetadata {
    fn clone(&self) -> (m: Self)
        ensures
            m.name@ == self.name@,
            m.description@ == self.description@,
            m.input_schema == self.input_schema,
    {
        ToolMetadata {
            name: self.name.clone(),
            description: self.description.clone(),
            input_schema: self.input_schema.clone(),
        }
    }
}

impl Keyed for ToolMetadata {
    open spec fn key_le(&self, other: &Self) -> bool {
        lex_le(self.name@, other.name@)
    }

    proof fn lemma_key_total(a: &Self, b: &Self) {
        lemma_lex_total(a.name@, b.name@);
    }

    proof fn lemma_key_transitive(a: &Self, b: &Self, c: &Self) {
        lemma_lex_transitive(a.name@, b.name@, c.name@);
    }

    fn key_le_exec(&self, other: &Self) -> (r: bool) {
        name_le(self.name.as_str(), other.name.as_str())
    }
}

/// A lifecycle event of one tool execution.
#[derive(Debug, Clone)]
pub struct ToolEvent {
    pub tool: String,
    pub phase: ToolEventPhase,
}

#[derive(Debug, Clone, Copy, PartialEq, Eq, Structural)]
pub enum ToolEventPhase {
    Started,
    Completed,
    Failed,
}

/// Why a tool could not run or did not finish.
#[derive(Debug)]
pub enum ToolError {
    Execution(String),
    Timeout(Duration),
    NotFound(String),
    AlreadyRegistered(String),
    InvalidInput(String),
}

/// The registered tools, at most one per name, in registration order.
pub struct ToolRegistry<T> {
    tools: Vec<(ToolMetadata, T)>,
}

/// Some registered tool has this name and description.
pub open spec fn describes_entry<T>(
    entries: Seq<(ToolMetadata, T)>,
    name: Seq<char>,
    description: Seq<char>,
    schema: serde_json::Value,
) -> bool {
    exists|k: int|
        0 <= k < entries.len() && entries[k].0.name@ == name && entries[k].0.description@ == description
            && entries[k].0.input_schema == schema
}

pub open spec fn names_unique<T>(tools: Seq<(ToolMetadata, T)>) -> bool {
    forall|i: int, j: int|
        0 <= i < tools.len() && 0 <= j < tools.len() && tools[i].0.name@ == tools[j].0.name@ ==> i
            == j
}

impl<T> ToolRegistry<T> {
    pub closed spec fn entries(&self) -> Seq<(ToolMetadata, T)> {
        self.tools@
    }

    /// The registered names.
    pub open spec fn names(&self) -> Seq<Seq<char>> {
        self.entries().map_values(|e: (ToolMetadata, T)| e.0.name@)
    }

    pub open spec fn has(&self, name: Seq<char>) -> bool {
        exists|i: int| 0 <= i < self.entries().len() && self.entries()[i].0.name@ == name
    }

    #[verifier::type_invariant]
    closed spec fn one_per_name(&self) -> bool {
        names_unique(self.tools@)
    }

    pub fn new() -> (r: Self)
        ensures
            r.entries().len() == 0,
    {
        ToolRegistry { tools: Vec::new() }
    }

    /// Registers a tool under its metadata's name; a name already taken is refused.
    pub fn register(&mut self, metadata: ToolMetadata, tool: T) -> (r: Result<(), ToolError>)
        ensures
            old(self).has(metadata.name@) ==> {
                &&& final(self).entries() == old(self).entries()
                &&& r matches Err(ToolError::AlreadyRegistered(n)) && n@ == metadata.name@
            },
            !old(self).has(metadata.name@) ==> {
                &&& final(self).entries() == old(self).entries().push((metadata, tool))
                &&& r is Ok
            },
    {
        proof {
            use_type_invariant(&*self);
        }
        let mut i: usize = 0;
        while i < self.tools.len()
            invariant
                i <= self.tools@.len(),
                forall|j: int| 0 <= j < i ==> self.tools@[j].0.name@ != metadata.name@,
            decreases self.tools@.len() - i,
        {
            if str_eq(self.tools[i].0.name.as_str(), metadata.name.as_str()) {
                return Err(ToolError::AlreadyRegistered(metadata.name));
            }
            i = i + 1;
        }
        let ghost before = self.tools@;
        let ghost entry = (metadata, tool);
        let mut tools = Vec::new();
        std::mem::swap(&mut tools, &mut self.tools);
        tools.push((metadata, tool));
        proof {
            assert(tools@ == before.push(entry));
            assert forall|a: int, b: int|
                0 <= a < tools@.len() && 0 <= b < tools@.len() && tools@[a].0.name@
                    == tools@[b].0.name@ implies a == b by {
                if a < before.len() && b < before.len() {
                } else if a < before.len() {
                    assert(before[a].0.name@ != entry.0.name@);
                } else if b < before.len() {
                    assert(before[b].0.name@ != entry.0.name@);
                }
            }
        }
        self.tools = tools;
        Ok(())
    }

    /// The tool registered under `name`, or `NotFound(name)`.
    pub fn get(&self, name: &str) -> (r: Result<&T, ToolError>)
        ensures
            r is Ok <==> self.has(name@),
            r matches Ok(t) ==> exists|i: int|
                0 <= i < self.entries().len() && self.entries()[i].0.name@ == name@
                    && self.entries()[i].1 == *t,
            r matches Err(e) ==> (e matches ToolError::NotFound(n) && n@ == name@),
    {
        let mut i: usize = 0;
        while i < self.tools.len()
            invariant
                i <= self.tools@.len(),
                forall|j: int| 0 <= j < i ==> self.tools@[j].0.name@ != name@,
            decreases self.tools@.len() - i,
        {
            if str_eq(self.tools[i].0.name.as_str(), name) {
                assert(self.entries()[i as int].0.name@ == name@);
                return Ok(&self.tools[i].1);
            }
            i = i + 1;
        }
        Err(ToolError::NotFound(name.to_owned()))
    }

    /// The metadata of every registered tool, ordered by name.
    pub fn metadata(&self) -> (r: Vec<ToolMetadata>)
        ensures
            r@.len() == self.entries().len(),
            crate::order::sorted(r@),
            r@.map_values(|m: ToolMetadata| m.name@).to_multiset() == self.names().to_multiset(),
            forall|i: int|
                0 <= i < r@.len() ==> #[trigger] describes_entry(
                    self.entries(),
                    r@[i].name@,
                    r@[i].description@,
                    r@[i].input_schema,
                ),
            forall|i: int, j: int| 0 <= i < j < r@.len() ==> r@[i].name@ != r@[j].name@,
    {
        proof {
            use_type_invariant(self);
        }
        let mut all: Vec<ToolMetadata> = Vec::new();
        let mut i: usize = 0;
        while i < self.tools.len()
            invariant
                i <= self.tools@.len(),
                all@.len() == i,
                forall|j: int|
                    0 <= j < i ==> #[trigger] all@[j].name@ == self.tools@[j].0.name@
                        && all@[j].description@ == self.tools@[j].0.description@
                        && all@[j].input_schema == self.tools@[j].0.input_schema,
            decreases self.tools@.len() - i,
        {
            all.push(self.tools[i].0.clone());
            i = i + 1;
        }
        let ghost unsorted = all@;
        let sorted = crate::order::stable_sort(all);
        proof {
            broadcast use vstd::seq_lib::group_to_multiset_ensures;

            crate::order::lemma_sort(unsorted);
            assert(unsorted.map_values(|m: ToolMetadata| m.name@) =~= self.names());
            crate::order::lemma_map_values_multiset(unsorted, sorted@, |m: ToolMetadata| m.name@);
            assert forall|i: int| 0 <= i < sorted@.len() implies #[trigger] describes_entry(
                self.entries(),
                sorted@[i].name@,
                sorted@[i].description@,
                sorted@[i].input_schema,
            ) by {
                let x = sorted@[i];
                assert(sorted@.contains(x));
                assert(sorted@.to_multiset().count(x) > 0);
                assert(unsorted.to_multiset().count(x) > 0);
                assert(unsorted.contains(x));
                let k = choose|k: int| 0 <= k < unsorted.len() && unsorted[k] == x;
                assert(unsorted[k].name@ == self.tools@[k].0.name@);
            }
            let names = self.names();
            let sorted_names = sorted@.map_values(|m: ToolMetadata| m.name@);
            assert(names.no_duplicates());
            names.lemma_multiset_has_no_duplicates();
            assert forall|x: Seq<char>| sorted_names.to_multiset().contains(x) implies sorted_names.to_multiset().count(
                x,
            ) == 1 by {
                assert(names.to_multiset().contains(x));
            }
            sorted_names.lemma_multiset_has_no_duplicates_conv();
            assert forall|i: int, j: int| 0 <= i < j < sorted@.len() implies sorted@[i].name@
                != sorted@[j].name@ by {
                assert(sorted_names[i] == sorted@[i].name@);
                assert(sorted_names[j] == sorted@[j].name@);
            }
        }
        sorted
    }
}

impl<T> ToolRegistry<T> {
    /// The registered tools as a model is told of them, ordered by name.
    pub fn model_tools(&self) -> (r: Vec<crate::models::ModelToolDefinition>)
        ensures
            r@.len() == self.entries().len(),
            forall|i: int, j: int|
                #![trigger r@[i], r@[j]]
                0 <= i < j < r@.len() ==> lex_le(r@[i].name@, r@[j].name@),
            r@.map_values(|d: crate::models::ModelToolDefinition| d.name@).to_multiset()
                == self.names().to_multiset(),
            forall|i: int|
                0 <= i < r@.len() ==> #[trigger] describes_entry(
                    self.entries(),
                    r@[i].name@,
                    r@[i].description@,
                    r@[i].input_schema,
                ),
            forall|i: int, j: int| 0 <= i < j < r@.len() ==> r@[i].name@ != r@[j].name@,
    {
        let sorted = self.metadata();
        let mut defs: Vec<crate::models::ModelToolDefinition> = Vec::new();
        let mut i: usize = 0;
        while i < sorted.len()
            invariant
                i <= sorted@.len(),
                defs@.len() == i,
                forall|k: int|
                    0 <= k < i ==> #[trigger] defs@[k].name@ == sorted@[k].name@
                        && defs@[k].description@ == sorted@[k].description@
                        && defs@[k].input_schema == sorted@[k].input_schema,
            decreases sorted@.len() - i,
        {
            let m = &sorted[i];
            defs.push(
                crate::models::ModelToolDefinition {
                    name: m.name.clone(),
                    description: m.description.clone(),
                    input_schema: m.input_schema.clone(),
                },
            );
            i = i + 1;
        }
        proof {
            assert(defs@.map_values(|d: crate::models::ModelToolDefinition| d.name@) =~= sorted@.map_values(
                |m: ToolMetadata| m.name@,
            ));
            assert forall|i: int, j: int| 0 <= i < j < defs@.len() implies lex_le(
                defs@[i].name@,
                defs@[j].name@,
            ) by {
                assert(sorted@[i].key_le(&sorted@[j]));
            }
            assert forall|i: int| 0 <= i < defs@.len() implies #[trigger] describes_entry(
                self.entries(),
                defs@[i].name@,
                defs@[i].description@,
                defs@[i].input_schema,
            ) by {
                assert(describes_entry(
                    self.entries(),
                    sorted@[i].name@,
                    sorted@[i].description@,
                    sorted@[i].input_schema,
                ));
            }
            assert forall|i: int, j: int| 0 <= i < j < defs@.len() implies defs@[i].name@
                != defs@[j].name@ by {
                assert(defs@[i].name@ == sorted@[i].name@);
                assert(defs@[j].name@ == sorted@[j].name@);
            }
        }
        defs
    }
}

/// A tool registered under a name that was free is then found under that
/// name, and it is the only tool held under it.
pub proof fn lemma_registered_tool_is_found<T>(
    before: ToolRegistry<T>,
    after: ToolRegistry<T>,
    metadata: ToolMetadata,
    tool: T,
)
    requires
        !before.has(metadata.name@),
        after.entries() == before.entries().push((metadata, tool)),
    ensures
        after.has(metadata.name@),
        forall|i: int|
            0 <= i < after.entries().len() && #[trigger] after.entries()[i].0.name@ == metadata.name@
                ==> after.entries()[i].1 == tool,
{
    let n = before.entries().len() as int;
    assert(after.entries()[n].0.name@ == metadata.name@);
    assert forall|i: int|
        0 <= i < after.entries().len() && #[trigger] after.entries()[i].0.name@ == metadata.name@
            implies after.entries()[i].1 == tool by {
        if i < n {
            assert(before.entries()[i] == after.entries()[i]);
        }
    }
}

/// What `as_nanos` gives for a `std::time::Duration`.
pub uninterp spec fn duration_nanos(d: Duration) -> u128;

/// `Duration::as_nanos`: the whole duration in nanoseconds.
#[verifier::external_body]
fn duration_as_nanos(d: &Duration) -> (n: u128)
    ensures
        n == duration_nanos(*d),
{
    d.as_nanos()
}

/// `Duration::from_millis`: `ms` milliseconds.
#[verifier::external_body]
fn duration_from_millis(ms: u64) -> (d: Duration)
    ensures
        duration_nanos(d) == ms as int * 1_000_000,
{
    Duration::from_millis(ms)
}

/// `Duration::from_secs`: `s` seconds.
#[verifier::external_body]
fn duration_from_secs(s: u64) -> (d: Duration)
    ensures
        duration_nanos(d) == s as int * 1_000_000_000,
{
    Duration::from_secs(s)
}

pub open spec fn timeout_limit_text(max_ms: nat) -> Seq<char> {
    "`timeout_ms` exceeds the maximum of "@ + decimal(max_ms) + " ms"@
}

/// The message for a timeout above the limit.
fn timeout_limit_message(max_ms: u128) -> (s: String)
    ensures
        s@ == timeout_limit_text(max_ms as nat),
{
    let mut s = crate::text::prefixed(
        "`timeout_ms` exceeds the maximum of ",
        crate::text::to_decimal_wide(max_ms).as_str(),
    );
    s.append(" ms");
    s
}

/// `canonical` is a canonical form that `Path::canonicalize` gave for `path`:
/// absolute, with every link and `.`/`..` resolved. It depends on the file
/// system at the time of the call, so it is a relation, not a function: two
/// calls on one path may give different answers, and nothing more is known
/// of it than the callers are told.
pub uninterp spec fn canonical_of(path: PathBuf, canonical: PathBuf) -> bool;

/// `Path::canonicalize`: a canonical form of `path`, or the I/O error's text.
#[verifier::external_body]
fn canonicalize(path: &PathBuf) -> (r: Result<PathBuf, String>)
    ensures
        r matches Ok(c) ==> canonical_of(*path, c),
{
    match path.canonicalize() {
        Ok(c) => Ok(c),
        Err(error) => Err(error.to_string()),
    }
}

/// What `OsStr::as_encoded_bytes` gives for a path: its bytes as the
/// operating system holds them.
pub uninterp spec fn path_bytes(p: PathBuf) -> Seq<u8>;

/// `OsStr::as_encoded_bytes`: the bytes of a path, a function of the path alone.
#[verifier::external_body]
fn encoded_bytes(p: &PathBuf) -> (b: Vec<u8>)
    ensures
        b@ == path_bytes(*p),
{
    p.as_os_str().as_encoded_bytes().to_vec()
}

/// What `Path::join` makes of a base and a relative path.
pub uninterp spec fn joined(base: PathBuf, relative: Seq<char>) -> PathBuf;

/// `Path::join`: `relative` appended to `base`, a function of the two alone.
#[verifier::external_body]
fn join_path(base: &PathBuf, relative: &str) -> (r: PathBuf)
    ensures
        r == joined(*base, relative@),
{
    base.join(relative)
}

/// A failed canonicalization as a tool error, carrying the file system's message.
fn canonical_error(message: String) -> (e: ToolError)
    ensures
        e matches ToolError::Execution(t) && t@ == message@,
{
    ToolError::Execution(message)
}

/// The `/` separator as a byte.
pub open spec fn separator() -> u8 {
    47u8
}

/// A canonical path lies within a canonical root: its components begin
/// with the root's, as `Path::starts_with` compares them.
pub open spec fn within_root(path: Seq<u8>, root: Seq<u8>) -> bool {
    &&& root.len() <= path.len()
    &&& path.subrange(0, root.len() as int) == root
    &&& (path.len() == root.len() || (root.len() > 0 && root.last() == separator()) || path[root.len() as int]
        == separator())
}

/// Refuses a canonical path outside the canonical workspace root.
pub fn confine(resolved: &[u8], root: &[u8]) -> (r: Result<(), ToolError>)
    ensures
        r is Ok <==> within_root(resolved@, root@),
        r matches Err(e) ==> (e matches ToolError::InvalidInput(m) && m@ == "path escapes workspace root"@),
{
    let n = root.len();
    let mut prefix = false;
    if n <= resolved.len() {
        let mut i: usize = 0;
        while i < n && resolved[i] == root[i]
            invariant
                n == root@.len(),
                n <= resolved@.len(),
                i <= n,
                forall|j: int| 0 <= j < i ==> resolved@[j] == root@[j],
            decreases n - i,
        {
            i = i + 1;
        }
        prefix = i == n;
        if prefix {
            assert(resolved@.subrange(0, n as int) =~= root@);
        } else {
            assert(resolved@.subrange(0, n as int)[i as int] != root@[i as int]);
        }
    }
    let inside = prefix && (resolved.len() == n || (n > 0 && root[n - 1] == 47u8) || resolved[n] == 47u8);
    if !inside {
        return Err(ToolError::InvalidInput("path escapes workspace root".to_owned()));
    }
    Ok(())
}

/// On Unix a path is absolute exactly when it begins at the root `/`.
pub open spec fn is_absolute_path(p: Seq<char>) -> bool {
    p.len() > 0 && p[0] == '/'
}

pub fn is_absolute(p: &str) -> (r: bool)
    ensures
        r == is_absolute_path(p@),
{
    let v = crate::text::chars_of(p);
    v.len() > 0 && v[0] == '/'
}

/// A path resolved inside a workspace: the canonical root and the canonical path.
#[derive(Debug)]
pub struct ResolvedPath {
    pub root: PathBuf,
    pub path: PathBuf,
}

/// `path` is what resolving `requested` inside `root` may give: the canonical
/// form of the canonical root joined with `requested`, lying within that root.
pub open spec fn resolution(root: PathBuf, requested: Seq<char>, canonical_root: PathBuf, path: PathBuf) -> bool {
    &&& canonical_of(root, canonical_root)
    &&& canonical_of(joined(canonical_root, requested), path)
    &&& within_root(path_bytes(path), path_bytes(canonical_root))
}

/// Resolving `requested` inside `root` may escape it: some canonical form of
/// the root, joined with `requested`, has a canonical form outside that root.
pub open spec fn escapes(root: PathBuf, requested: Seq<char>) -> bool {
    exists|canonical_root: PathBuf, path: PathBuf|
        #[trigger] canonical_of(root, canonical_root) && #[trigger] canonical_of(
            joined(canonical_root, requested),
            path,
        ) && !within_root(path_bytes(path), path_bytes(canonical_root))
}

/// A canonical path lies within a canonical root exactly when the root's
/// bytes begin it and it either is the root, or goes on with a separator,
/// or the root ends in one. In particular the root lies within itself, a
/// path below it lies within it, and a sibling sharing a prefix does not.
pub proof fn lemma_within_root_cases(root: Seq<u8>, rest: Seq<u8>)
    ensures
        within_root(root, root),
        root.len() > 0 ==> within_root(root + seq![47u8] + rest, root),
        (rest.len() > 0 && rest[0] != 47u8 && root.len() > 0 && root.last() != 47u8) ==> !within_root(
            root + rest,
            root,
        ),
        forall|path: Seq<u8>|
            #![trigger within_root(path, root)]
            (path.len() < root.len() || exists|i: int| 0 <= i < root.len() && i < path.len() && path[i] != root[i])
                ==> !within_root(path, root),
{
    assert(root.subrange(0, root.len() as int) =~= root);
    let below = root + seq![47u8] + rest;
    assert(below.subrange(0, root.len() as int) =~= root);
    assert(below[root.len() as int] == 47u8);
    let sibling = root + rest;
    assert(sibling.subrange(0, root.len() as int) =~= root);
    if rest.len() > 0 {
        assert(sibling[root.len() as int] == rest[0]);
    }
    assert forall|path: Seq<u8>|
        #![trigger within_root(path, root)]
        (path.len() < root.len() || exists|i: int| 0 <= i < root.len() && i < path.len() && path[i] != root[i])
            implies !within_root(path, root) by {
        if path.len() >= root.len() {
            let i = choose|i: int| 0 <= i < root.len() && i < path.len() && path[i] != root[i];
            assert(path.subrange(0, root.len() as int)[i] != root[i]);
        }
    }
}

/// Only an answer outside the root is an escape: when every canonical form of
/// the joined path lies within the canonical root it was joined to (as the
/// root itself does, for `.`), resolving never escapes.
pub proof fn lemma_no_escape_inside(root: PathBuf, requested: Seq<char>)
    requires
        forall|canonical_root: PathBuf, path: PathBuf|
            #![trigger canonical_of(root, canonical_root), canonical_of(joined(canonical_root, requested), path)]
            canonical_of(root, canonical_root) && canonical_of(joined(canonical_root, requested), path) ==> (
            path_bytes(path) == path_bytes(canonical_root) || within_root(
                path_bytes(path),
                path_bytes(canonical_root),
            )),
    ensures
        !escapes(root, requested),
{
    assert forall|canonical_root: PathBuf, path: PathBuf|
        canonical_of(root, canonical_root) && canonical_of(joined(canonical_root, requested), path) implies within_root(
        path_bytes(path),
        path_bytes(canonical_root),
    ) by {
        lemma_within_root_cases(path_bytes(canonical_root), Seq::empty());
    }
}

/// `path` resolves `requested` inside `root`, through some canonical form of the root.
pub open spec fn resolves_within(root: PathBuf, requested: Seq<char>, path: PathBuf) -> bool {
    exists|canonical_root: PathBuf| #[trigger] resolution(root, requested, canonical_root, path)
}

/// Why a request for a path inside the workspace may be refused.
pub open spec fn path_error(requested: Seq<char>, m: Seq<char>) -> bool {
    if is_absolute_path(requested) {
        m == "absolute paths are not allowed"@
    } else {
        m == "path escapes workspace root"@
    }
}

/// Resolves `requested` inside the workspace `root`. Absolute paths are
/// refused outright. The root is made canonical, `requested` is joined to
/// it, and the result is made canonical; that reads the file system, so a
/// failure there is an execution error. The canonical path is accepted only
/// when it lies within the canonical root (`confine`).
pub fn resolve_in_root(root: &PathBuf, requested: &str) -> (r: Result<ResolvedPath, ToolError>)
    ensures
        is_absolute_path(requested@) <==> (r matches Err(ToolError::InvalidInput(m)) && m@
            == "absolute paths are not allowed"@),
        r matches Err(e) ==> (e is Execution || (e matches ToolError::InvalidInput(m) && path_error(
            requested@,
            m@,
        ))),
        r matches Ok(w) ==> resolution(*root, requested@, w.root, w.path),
        r matches Err(ToolError::InvalidInput(m)) && m@ == "path escapes workspace root"@ ==> escapes(
            *root,
            requested@,
        ),
{
    proof {
        reveal_strlit("path escapes workspace root");
        reveal_strlit("absolute paths are not allowed");
        assert("path escapes workspace root"@[0] != "absolute paths are not allowed"@[0]);
    }
    if is_absolute(requested) {
        return Err(ToolError::InvalidInput("absolute paths are not allowed".to_owned()));
    }
    let canonical_root = match canonicalize(root) {
        Ok(c) => c,
        Err(m) => return Err(canonical_error(m)),
    };
    let candidate = join_path(&canonical_root, requested);
    let resolved = match canonicalize(&candidate) {
        Ok(c) => c,
        Err(m) => return Err(canonical_error(m)),
    };
    let root_bytes = encoded_bytes(&canonical_root);
    let bytes = encoded_bytes(&resolved);
    match confine(bytes.as_slice(), root_bytes.as_slice()) {
        Ok(()) => Ok(ResolvedPath { root: canonical_root, path: resolved }),
        Err(e) => {
            assert(canonical_of(*root, canonical_root) && canonical_of(
                joined(canonical_root, requested@),
                resolved,
            ) && !within_root(path_bytes(resolved), path_bytes(canonical_root)));
            Err(e)
        },
    }
}

/// Resolves `requested` inside the workspace `root`: `resolve_in_root`'s path.
pub fn resolve_workspace_path(root: &PathBuf, requested: &str) -> (r: Result<PathBuf, ToolError>)
    ensures
        is_absolute_path(requested@) <==> (r matches Err(ToolError::InvalidInput(m)) && m@
            == "absolute paths are not allowed"@),
        r matches Err(e) ==> (e is Execution || (e matches ToolError::InvalidInput(m) && path_error(
            requested@,
            m@,
        ))),
        r matches Ok(p) ==> resolves_within(*root, requested@, p),
        r matches Err(ToolError::InvalidInput(m)) && m@ == "path escapes workspace root"@ ==> escapes(
            *root,
            requested@,
        ),
{
    match resolve_in_root(root, requested) {
        Ok(w) => {
            assert(resolution(*root, requested@, w.root, w.path));
            Ok(w.path)
        },
        Err(e) => Err(e),
    }
}

/// The `path` input of the filesystem tool: a string, or the error.
pub open spec fn spec_path_field(input: Json) -> Option<Seq<char>> {
    match input.field("path"@) {
        Some(Json::String(s)) => Some(s@),
        _ => None,
    }
}

/// Read-only filesystem tool rooted inside a Nexus workspace.
#[derive(Debug)]
pub struct FileSystemTool {
    pub root: PathBuf,
}

impl FileSystemTool {
    pub fn new(root: PathBuf) -> (t: Self)
        ensures
            t.root == root,
    {
        FileSystemTool { root }
    }

    /// The file a read request names, resolved inside the root. The input must
    /// carry a string `path`.
    pub fn target(&self, input: &Json) -> (r: Result<PathBuf, ToolError>)
        ensures
            spec_path_field(*input) is None <==> (r matches Err(ToolError::InvalidInput(m)) && m@
                == "missing string field `path`"@),
            (spec_path_field(*input) matches Some(p) && is_absolute_path(p)) <==> (r matches Err(
                ToolError::InvalidInput(m),
            ) && m@ == "absolute paths are not allowed"@),
            spec_path_field(*input) matches Some(p) && !is_absolute_path(p) ==> (r is Ok || r matches Err(
                ToolError::Execution(_),
            ) || (r matches Err(ToolError::InvalidInput(m)) && m@ == "path escapes workspace root"@)),
            r matches Ok(p) ==> (spec_path_field(*input) matches Some(q) && resolves_within(self.root, q, p)),
            r matches Err(ToolError::InvalidInput(m)) && m@ == "path escapes workspace root"@ ==> (
            spec_path_field(*input) matches Some(q) && escapes(self.root, q)),
    {
        proof {
            reveal_strlit("path escapes workspace root");
            reveal_strlit("absolute paths are not allowed");
            reveal_strlit("missing string field `path`");
            assert("missing string field `path`"@[0] != "absolute paths are not allowed"@[0]);
            assert("missing string field `path`"@[0] != "path escapes workspace root"@[0]);
        }
        match input.get("path") {
            Some(Json::String(p)) => resolve_workspace_path(&self.root, p.as_str()),
            _ => Err(ToolError::InvalidInput("missing string field `path`".to_owned())),
        }
    }
}

/// The `program` input of the shell tool: a non-empty string.
pub open spec fn spec_program(input: Json) -> Option<Seq<char>> {
    match input.field("program"@) {
        Some(Json::String(s)) => if s@.len() > 0 {
            Some(s@)
        } else {
            None
        },
        _ => None,
    }
}

/// The `args` input: absent means none; otherwise an array of strings.
pub open spec fn spec_args(input: Json) -> Option<Seq<Seq<char>>> {
    match input.field("args"@) {
        None => Some(Seq::empty()),
        Some(Json::Array(items)) => if forall|i: int|
            0 <= i < items@.len() ==> (#[trigger] items@[i]) is String {
            Some(items@.map_values(|j: Json| j->String_0@))
        } else {
            None
        },
        Some(_) => None,
    }
}

/// The outcome owed for the `timeout_ms` input against a limit of `max_nanos`:
/// `None` to use the default, `Some(Ok(ms))` for an accepted value, `Some(Err(msg))`.
pub open spec fn spec_timeout(input: Json, max_nanos: u128) -> Option<Result<u64, Seq<char>>> {
    match input.field("timeout_ms"@) {
        None => None,
        Some(Json::Number(JsonNumber::PosInt(ms))) => if ms == 0 {
            Some(Err("`timeout_ms` must be greater than zero"@))
        } else if ms * 1_000_000 > max_nanos {
            Some(Err(timeout_limit_text((max_nanos / 1_000_000) as nat)))
        } else {
            Some(Ok(ms))
        },
        Some(_) => Some(Err("`timeout_ms` must be an unsigned integer"@)),
    }
}

/// Why the `cwd` input may be refused: not a string, absolute, or outside the root.
pub open spec fn cwd_error(input: Json, m: Seq<char>) -> bool {
    match input.field("cwd"@) {
        Some(Json::String(c)) => path_error(c@, m),
        Some(_) => m == "`cwd` must be a string"@,
        None => false,
    }
}

/// The directory a shell request runs in: a canonical form of the root
/// when `cwd` is absent, else `cwd` resolved inside the root.
pub open spec fn cwd_resolution(root: PathBuf, input: Json, dir: PathBuf) -> bool {
    match input.field("cwd"@) {
        None => canonical_of(root, dir),
        Some(Json::String(c)) => resolves_within(root, c@, dir),
        Some(_) => false,
    }
}

/// Everything a shell execution needs, checked.
#[derive(Debug)]
pub struct ShellCommand {
    pub program: String,
    pub args: Vec<String>,
    pub cwd: PathBuf,
    pub timeout: Duration,
}

/// Structured process execution rooted inside a Nexus workspace. Programs and
/// arguments go to the operating system directly, never through a shell.
#[derive(Debug)]
pub struct ShellTool {
    root: PathBuf,
    default_timeout: Duration,
    max_timeout: Duration,
}

impl ShellTool {
    pub closed spec fn root_view(&self) -> PathBuf {
        self.root
    }

    pub closed spec fn default_timeout_view(&self) -> Duration {
        self.default_timeout
    }

    pub closed spec fn max_timeout_view(&self) -> Duration {
        self.max_timeout
    }

    /// A shell tool with a 30 s default and a 300 s limit.
    pub fn new(root: PathBuf) -> (t: Self)
        ensures
            t.root_view() == root,
            duration_nanos(t.default_timeout_view()) == 30_000_000_000,
            duration_nanos(t.max_timeout_view()) == 300_000_000_000,
    {
        ShellTool {
            root,
            default_timeout: duration_from_secs(30),
            max_timeout: duration_from_secs(300),
        }
    }

    pub fn with_timeouts(root: PathBuf, default_timeout: Duration, max_timeout: Duration) -> (t: Self)
        ensures
            t.root_view() == root,
            t.default_timeout_view() == default_timeout,
            t.max_timeout_view() == max_timeout,
    {
        ShellTool { root, default_timeout, max_timeout }
    }

    /// The time limit of a request: the default when `timeout_ms` is absent;
    /// otherwise a positive whole number of milliseconds within the limit.
    pub fn timeout_for(&self, input: &Json) -> (r: Result<Duration, ToolError>)
        ensures
            spec_timeout(*input, duration_nanos(self.max_timeout_view())) is None ==> r == Ok::<
                Duration,
                ToolError,
            >(self.default_timeout_view()),
            spec_timeout(*input, duration_nanos(self.max_timeout_view())) matches Some(Ok(ms)) ==> (
            r matches Ok(d) && duration_nanos(d) == ms * 1_000_000),
            spec_timeout(*input, duration_nanos(self.max_timeout_view())) matches Some(Err(msg)) ==> (
            r matches Err(ToolError::InvalidInput(m)) && m@ == msg),
    {
        match input.get("timeout_ms") {
            None => Ok(self.default_timeout),
            Some(Json::Number(JsonNumber::PosInt(ms))) => {
                let ms = *ms;
                if ms == 0 {
                    return Err(
                        ToolError::InvalidInput("`timeout_ms` must be greater than zero".to_owned()),
                    );
                }
                let max_nanos = duration_as_nanos(&self.max_timeout);
                if (ms as u128) * 1_000_000 > max_nanos {
                    return Err(ToolError::InvalidInput(timeout_limit_message(max_nanos / 1_000_000)));
                }
                Ok(duration_from_millis(ms))
            },
            Some(_) => Err(
                ToolError::InvalidInput("`timeout_ms` must be an unsigned integer".to_owned()),
            ),
        }
    }

    /// The directory to run in: the canonical root by default, else `cwd`
    /// resolved inside the root.
    pub fn working_directory(&self, input: &Json) -> (r: Result<PathBuf, ToolError>)
        ensures
            input.field("cwd"@) matches Some(v) && !(v is String) ==> (r matches Err(
                ToolError::InvalidInput(m),
            ) && m@ == "`cwd` must be a string"@),
            input.field("cwd"@) matches Some(Json::String(c)) && is_absolute_path(c@) ==> (r matches Err(
                ToolError::InvalidInput(m),
            ) && m@ == "absolute paths are not allowed"@),
            r matches Err(e) ==> (e is Execution || (e matches ToolError::InvalidInput(m) && cwd_error(
                *input,
                m@,
            ))),
            r matches Ok(p) ==> cwd_resolution(self.root_view(), *input, p),
            r matches Err(ToolError::InvalidInput(m)) && m@ == "path escapes workspace root"@ ==> (
            input.field("cwd"@) matches Some(Json::String(c)) && escapes(self.root_view(), c@)),
    {
        proof {
            reveal_strlit("path escapes workspace root");
            reveal_strlit("`cwd` must be a string");
            assert("path escapes workspace root"@[0] != "`cwd` must be a string"@[0]);
        }
        match input.get("cwd") {
            None => match canonicalize(&self.root) {
                Ok(c) => Ok(c),
                Err(m) => Err(canonical_error(m)),
            },
            Some(Json::String(c)) => resolve_workspace_path(&self.root, c.as_str()),
            Some(_) => Err(ToolError::InvalidInput("`cwd` must be a string".to_owned())),
        }
    }

    /// Checks a request in the order the tool reports problems: `program`,
    /// then `args`, then `cwd`, then `timeout_ms`.
    pub fn prepare(&self, input: &Json) -> (r: Result<ShellCommand, ToolError>)
        ensures
            spec_program(*input) is None <==> (r matches Err(ToolError::InvalidInput(m)) && m@
                == "missing string field `program`"@),
            (spec_program(*input) is Some && (input.field("args"@) matches Some(a) && !(a is Array)))
                <==> (r matches Err(ToolError::InvalidInput(m)) && m@ == "`args` must be an array"@),
            (spec_program(*input) is Some && (input.field("args"@) matches Some(Json::Array(_))
                && spec_args(*input) is None)) <==> (r matches Err(ToolError::InvalidInput(m)) && m@
                == "every `args` entry must be a string"@),
            spec_program(*input) is Some && spec_args(*input) is Some ==> {
                ||| r matches Err(ToolError::Execution(_))
                ||| (r matches Err(ToolError::InvalidInput(m)) && cwd_error(*input, m@))
                ||| match spec_timeout(*input, duration_nanos(self.max_timeout_view())) {
                    Some(Err(msg)) => r matches Err(ToolError::InvalidInput(m)) && m@ == msg,
                    _ => r is Ok,
                }
            },
            r matches Err(ToolError::InvalidInput(m)) && m@ == "path escapes workspace root"@ ==> (
            input.field("cwd"@) matches Some(Json::String(c)) && escapes(self.root_view(), c@)),
            r matches Ok(c) ==> {
                &&& cwd_resolution(self.root_view(), *input, c.cwd)
                &&& spec_program(*input) == Some(c.program@)
                &&& spec_args(*input) == Some(c.args@.map_values(|s: String| s@))
                &&& match spec_timeout(*input, duration_nanos(self.max_timeout_view())) {
                    None => c.timeout == self.default_timeout_view(),
                    Some(Ok(ms)) => duration_nanos(c.timeout) == ms * 1_000_000,
                    Some(Err(_)) => false,
                }
            },
    {
        proof {
            lemma_shell_messages_distinct(*input, duration_nanos(self.max_timeout_view()));
        }
        let program = match input.get("program") {
            Some(Json::String(p)) => {
                if p.as_str().unicode_len() == 0 {
                    return Err(ToolError::InvalidInput("missing string field `program`".to_owned()));
                }
                p.clone()
            },
            _ => return Err(ToolError::InvalidInput("missing string field `program`".to_owned())),
        };
        let args = match shell_args(input) {
            Ok(a) => a,
            Err(e) => return Err(e),
        };
        let cwd = match self.working_directory(input) {
            Ok(c) => c,
            Err(e) => return Err(e),
        };
        let timeout = match self.timeout_for(input) {
            Ok(t) => t,
            Err(e) => return Err(e),
        };
        Ok(ShellCommand { program, args, cwd, timeout })
    }
}

/// The messages of the `cwd` and `timeout_ms` checks differ from those of the
/// `program` and `args` checks.
proof fn lemma_shell_messages_distinct(input: Json, max_nanos: u128)
    ensures
        "missing string field `program`"@ != "`args` must be an array"@,
        "missing string field `program`"@ != "every `args` entry must be a string"@,
        "`args` must be an array"@ != "every `args` entry must be a string"@,
        "path escapes workspace root"@ != "missing string field `program`"@,
        "path escapes workspace root"@ != "`args` must be an array"@,
        "path escapes workspace root"@ != "every `args` entry must be a string"@,
        spec_timeout(input, max_nanos) matches Some(Err(m)) ==> m != "path escapes workspace root"@,
        forall|m: Seq<char>|
            #![trigger cwd_error(input, m)]
            cwd_error(input, m) ==> m != "missing string field `program`"@ && m
                != "`args` must be an array"@ && m != "every `args` entry must be a string"@,
        spec_timeout(input, max_nanos) matches Some(Err(m)) ==> m != "missing string field `program`"@
            && m != "`args` must be an array"@ && m != "every `args` entry must be a string"@,
{
    reveal_strlit("missing string field `program`");
    reveal_strlit("`args` must be an array");
    reveal_strlit("every `args` entry must be a string");
    reveal_strlit("`cwd` must be a string");
    reveal_strlit("absolute paths are not allowed");
    reveal_strlit("path escapes workspace root");
    reveal_strlit("`timeout_ms` must be greater than zero");
    reveal_strlit("`timeout_ms` must be an unsigned integer");
    reveal_strlit("`timeout_ms` exceeds the maximum of ");
    let p = "missing string field `program`"@;
    let a = "`args` must be an array"@;
    let e = "every `args` entry must be a string"@;
    assert(p[0] != a[0] && p[0] != e[0] && a[0] != e[0]);
    reveal_strlit("path escapes workspace root");
    let x = "path escapes workspace root"@;
    assert(x[0] != p[0] && x[0] != a[0] && x[0] != e[0]);
    assert(x[0] != a[0] && a[0] == '`');
    assert forall|m: Seq<char>| #![trigger cwd_error(input, m)] cwd_error(input, m) implies m != p
        && m != a && m != e by {
        if m == "`cwd` must be a string"@ {
            assert(m[1] != a[1]);
        } else if m == "absolute paths are not allowed"@ {
            assert(m[0] != e[0]);
        } else {
            assert(m[0] != a[0]);
        }
    }
    if let Some(Err(m)) = spec_timeout(input, max_nanos) {
        if m == "`timeout_ms` must be greater than zero"@ {
            assert(m[1] != a[1]);
            assert(m[0] != x[0]);
        } else if m == "`timeout_ms` must be an unsigned integer"@ {
            assert(m[1] != a[1]);
            assert(m[0] != x[0]);
        } else {
            let pre = "`timeout_ms` exceeds the maximum of "@;
            assert(m == pre + decimal((max_nanos / 1_000_000) as nat) + " ms"@);
            assert(m[0] == pre[0]);
            assert(m[0] != x[0]);
            assert(m[1] == pre[1]);
            assert(m[1] != a[1]);
        }
    }
}

/// The `args` input as strings, or the error for a malformed one.
pub fn shell_args(input: &Json) -> (r: Result<Vec<String>, ToolError>)
    ensures
        r matches Ok(a) ==> spec_args(*input) == Some(a@.map_values(|s: String| s@)),
        spec_args(*input) is None <==> r is Err,
        input.field("args"@) matches Some(a) && !(a is Array) ==> (r matches Err(
            ToolError::InvalidInput(m),
        ) && m@ == "`args` must be an array"@),
        input.field("args"@) matches Some(Json::Array(_)) && spec_args(*input) is None ==> (
        r matches Err(ToolError::InvalidInput(m)) && m@ == "every `args` entry must be a string"@),
{
    match input.get("args") {
        None => {
            let v: Vec<String> = Vec::new();
            assert(v@.map_values(|s: String| s@) =~= Seq::<Seq<char>>::empty());
            Ok(v)
        },
        Some(Json::Array(items)) => {
            assert(input.field("args"@) == Some(Json::Array(*items)));
            let mut out: Vec<String> = Vec::new();
            let mut i: usize = 0;
            while i < items.len()
                invariant
                    input.field("args"@) == Some(Json::Array(*items)),
                    i <= items@.len(),
                    out@.len() == i,
                    forall|j: int| 0 <= j < i ==> (#[trigger] items@[j]) is String,
                    forall|j: int| 0 <= j < i ==> #[trigger] out@[j]@ == items@[j]->String_0@,
                decreases items@.len() - i,
            {
                match &items[i] {
                    Json::String(s) => {
                        out.push(s.clone());
                    },
                    _ => {
                        return Err(
                            ToolError::InvalidInput(
                                "every `args` entry must be a string".to_owned(),
                            ),
                        );
                    },
                }
                i = i + 1;
            }
            assert(out@.map_values(|s: String| s@) =~= items@.map_values(|j: Json| j->String_0@));
            Ok(out)
        },
        Some(_) => Err(ToolError::InvalidInput("`args` must be an array".to_owned())),
    }
}

} // verus!

verus! {

/// `format!("{:?}", d)`: the debug form of a duration, such as `1.5s`.
/// Nothing is claimed of the text.
#[verifier::external_body]
fn duration_debug(d: &Duration) -> (r: String) {
    format!("{d:?}")
}

impl ToolError {
    /// Whether `text` is how the error reads.
    pub open spec fn message_is(&self, text: Seq<char>) -> bool {
        match self {
            ToolError::Execution(m) => text == "tool execution failed: "@ + m@,
            ToolError::Timeout(_) => exists|t: Seq<char>| text == "tool execution timed out after "@ + t,
            ToolError::NotFound(n) => text == "tool not found: "@ + n@,
            ToolError::AlreadyRegistered(n) => text == "tool already registered: "@ + n@,
            ToolError::InvalidInput(m) => text == "invalid tool input: "@ + m@,
        }
    }

    /// How the error reads.
    pub fn message(&self) -> (r: String)
        ensures
            self.message_is(r@),
    {
        match self {
            ToolError::Execution(m) => crate::text::prefixed("tool execution failed: ", m.as_str()),
            ToolError::Timeout(d) => crate::text::prefixed(
                "tool execution timed out after ",
                duration_debug(d).as_str(),
            ),
            ToolError::NotFound(n) => crate::text::prefixed("tool not found: ", n.as_str()),
            ToolError::AlreadyRegistered(n) => crate::text::prefixed("tool already registered: ", n.as_str()),
            ToolError::InvalidInput(m) => crate::text::prefixed("invalid tool input: ", m.as_str()),
        }
    }
}

} // verus!
