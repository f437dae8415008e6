//! Reading `git worktree list --porcelain`.
//!
//! The output is a sequence of blocks separated by blank lines; a block's
//! `worktree <path>` and `branch refs/heads/<branch>` lines name a worktree.
//! Only worktrees directly under the Nexus worktrees root are Nexus's own.

use vstd::prelude::*;

use crate::order::{lemma_lex_total, lemma_lex_transitive, lex_le, name_le, Keyed};
use crate::text::{chars_of, seq_starts_with, string_of};

verus! {

/// Where the first line feed of `s` is (its length when there is none).
pub open spec fn newline_index(s: Seq<char>) -> nat
    decreases s.len(),
{
    if s.len() == 0 {
        0
    } else if s[0] == '\n' {
        0
    } else {
        1 + newline_index(s.drop_first())
    }
}

/// A line without the carriage return of a CRLF ending.
pub open spec fn strip_cr(l: Seq<char>) -> Seq<char> {
    if l.len() > 0 && l.last() == '\r' {
        l.drop_last()
    } else {
        l
    }
}

/// The lines of a text as `str::lines` gives them: split at line feeds, a
/// carriage return before a line feed dropped, no empty line after a final
/// line feed.
pub open spec fn lines(s: Seq<char>) -> Seq<Seq<char>>
    decreases s.len(),
{
    if s.len() == 0 {
        Seq::empty()
    } else {
        let k = newline_index(s);
        if k >= s.len() {
            seq![s]
        } else {
            seq![strip_cr(s.take(k as int))] + lines(s.skip(k as int + 1))
        }
    }
}

/// A Nexus worktree as listed: its name, branch and path.
#[derive(Debug, Clone)]
pub struct ListedWorktree {
    pub name: String,
    pub branch: String,
    pub path: String,
}

impl Keyed for ListedWorktree {
    open spec fn key_le(&self, other: &Self) -> bool {
        lex_le(self.name@, other.name@)
    }

    proof fn lemma_key_total(a: &Self, b: &Self) {
        lemma_lex_total(a.name@, b.name@);
    }

    proof fn lemma_key_transitive(a: &Self, b: &Self, c: &Self) {
        lemma_lex_transitive(a.name@, b.name@, c.name@);
    }

    fn key_le_exec(&self, other: &Self) -> (r: bool) {
        name_le(self.name.as_str(), other.name.as_str())
    }
}

/// The name of a worktree at `path` when it lies directly under `root`
/// (one path segment below it).
pub open spec fn name_under(path: Seq<char>, root: Seq<char>) -> Option<Seq<char>> {
    let rest = path.skip(root.len() as int + 1);
    if seq_starts_with(path, root) && path.len() > root.len() + 1 && path[root.len() as int] == '/'
        && !rest.contains('/') {
        Some(rest)
    } else {
        None
    }
}

/// What has been read so far: the current block's path and branch, and the
/// worktrees found.
pub struct ListState {
    pub path: Option<Seq<char>>,
    pub branch: Option<Seq<char>>,
    pub found: Seq<(Seq<char>, Seq<char>, Seq<char>)>,
}

/// Reads one line. A blank line ends a block: a block with both a path and a
/// branch under the root adds a worktree; both are then forgotten.
pub open spec fn list_step(st: ListState, line: Seq<char>, root: Seq<char>) -> ListState {
    if line.len() == 0 {
        let found = match (st.path, st.branch) {
            (Some(p), Some(b)) => match name_under(p, root) {
                Some(n) => st.found.push((n, b, p)),
                None => st.found,
            },
            _ => st.found,
        };
        ListState { path: None, branch: None, found }
    } else if seq_starts_with(line, "worktree "@) {
        ListState { path: Some(line.skip(9)), ..st }
    } else if seq_starts_with(line, "branch refs/heads/"@) {
        ListState { branch: Some(line.skip(18)), ..st }
    } else {
        st
    }
}

pub open spec fn list_run(st: ListState, ls: Seq<Seq<char>>, root: Seq<char>) -> ListState
    decreases ls.len(),
{
    if ls.len() == 0 {
        st
    } else {
        list_run(list_step(st, ls[0], root), ls.drop_first(), root)
    }
}

/// The worktrees a listing names, in listing order: its lines, then one
/// blank line to end the last block.
pub open spec fn listed(output: Seq<char>, root: Seq<char>) -> Seq<(Seq<char>, Seq<char>, Seq<char>)> {
    list_run(
        ListState { path: None, branch: None, found: Seq::empty() },
        lines(output).push(Seq::empty()),
        root,
    ).found
}

pub open spec fn entry_view(w: ListedWorktree) -> (Seq<char>, Seq<char>, Seq<char>) {
    (w.name@, w.branch@, w.path@)
}

proof fn lemma_newline_index(s: Seq<char>, j: int)
    requires
        0 <= j <= s.len(),
        forall|i: int| 0 <= i < j ==> s[i] != '\n',
        j < s.len() ==> s[j] == '\n',
    ensures
        newline_index(s) == j,
    decreases s.len(),
{
    if s.len() > 0 && j > 0 {
        lemma_newline_index(s.drop_first(), j - 1);
    }
}

/// The worktree under `root` that a path names, if any.
fn worktree_name(path: &String, root: &Vec<char>) -> (r: Option<String>)
    ensures
        r matches Some(n) ==> name_under(path@, root@) == Some(n@),
        r is None ==> name_under(path@, root@) is None,
{
    let pv = chars_of(path.as_str());
    let rl = root.len();
    if pv.len() <= rl || pv.len() - rl < 2 {
        proof {
            if seq_starts_with(path@, root@) && path@.len() > root@.len() + 1 {
            }
        }
        return None;
    }
    let mut i: usize = 0;
    while i < rl
        invariant
            pv@ == path@,
            rl == root@.len(),
            rl < pv@.len(),
            i <= rl,
            forall|j: int| 0 <= j < i ==> pv@[j] == root@[j],
        decreases rl - i,
    {
        if pv[i] != root[i] {
            assert(path@.subrange(0, rl as int)[i as int] != root@[i as int]);
            return None;
        }
        i = i + 1;
    }
    assert(path@.subrange(0, rl as int) =~= root@);
    if pv[rl] != '/' {
        return None;
    }
    let mut k = rl + 1;
    while k < pv.len()
        invariant
            pv@ == path@,
            rl == root@.len(),
            rl + 1 <= k <= pv@.len(),
            forall|j: int| rl + 1 <= j < k ==> pv@[j] != '/',
        decreases pv@.len() - k,
    {
        if pv[k] == '/' {
            assert(path@.skip(rl as int + 1)[k - rl - 1] == '/');
            return None;
        }
        k = k + 1;
    }
    proof {
        let rest = path@.skip(rl as int + 1);
        assert forall|j: int| 0 <= j < rest.len() implies rest[j] != '/' by {
            assert(rest[j] == pv@[j + rl + 1]);
        }
    }
    let name = string_of(&pv, rl + 1, pv.len());
    assert(name@ =~= path@.skip(rl as int + 1));
    Some(name)
}

pub open spec fn state_view(path: Option<String>, branch: Option<String>, found: Seq<ListedWorktree>) -> ListState {
    ListState {
        path: match path {
            Some(p) => Some(p@),
            None => None,
        },
        branch: match branch {
            Some(b) => Some(b@),
            None => None,
        },
        found: found.map_values(|w: ListedWorktree| entry_view(w)),
    }
}

/// Reads one line into the state, as `list_step` says.
fn read_line(
    path: &mut Option<String>,
    branch: &mut Option<String>,
    found: &mut Vec<ListedWorktree>,
    line: &Vec<char>,
    root: &Vec<char>,
)
    ensures
        state_view(*final(path), *final(branch), final(found)@) == list_step(
            state_view(*old(path), *old(branch), old(found)@),
            line@,
            root@,
        ),
{
    let ghost st = state_view(*path, *branch, found@);
    if line.len() == 0 {
        let p = path.take();
        let b = branch.take();
        match (p, b) {
            (Some(p), Some(b)) => {
                match worktree_name(&p, root) {
                    Some(n) => {
                        let ghost before = found@;
                        found.push(ListedWorktree { name: n, branch: b, path: p });
                        assert(found@.map_values(|w: ListedWorktree| entry_view(w)) =~= before.map_values(
                            |w: ListedWorktree| entry_view(w),
                        ).push((n@, b@, p@)));
                    },
                    None => {},
                }
            },
            _ => {},
        }
        return;
    }
    let text = string_of(line, 0, line.len());
    assert(text@ =~= line@);
    if crate::text::starts_with(text.as_str(), "worktree ") {
        proof {
            reveal_strlit("worktree ");
        }
        *path = Some(string_of(line, 9, line.len()));
        assert(path.unwrap()@ =~= line@.skip(9));
    } else if crate::text::starts_with(text.as_str(), "branch refs/heads/") {
        proof {
            reveal_strlit("branch refs/heads/");
        }
        *branch = Some(string_of(line, 18, line.len()));
        assert(branch.unwrap()@ =~= line@.skip(18));
    }
}

/// The worktrees that `git worktree list --porcelain` output names directly
/// under `root`, in listing order.
pub fn parse_worktree_list(output: &str, root: &str) -> (r: Vec<ListedWorktree>)
    ensures
        r@.map_values(|w: ListedWorktree| entry_view(w)) == listed(output@, root@),
{
    let v = chars_of(output);
    let rv = chars_of(root);
    let n = v.len();
    let mut path: Option<String> = None;
    let mut branch: Option<String> = None;
    let mut found: Vec<ListedWorktree> = Vec::new();
    let ghost init = ListState { path: None, branch: None, found: Seq::empty() };
    assert(found@.map_values(|w: ListedWorktree| entry_view(w)) =~= Seq::<(Seq<char>, Seq<char>, Seq<char>)>::empty());
    assert(state_view(path, branch, found@) == init);
    assert(v@.skip(0) =~= v@);
    let mut pos: usize = 0;
    while pos < n
        invariant
            v@ == output@,
            rv@ == root@,
            n == v@.len(),
            pos <= n,
            list_run(state_view(path, branch, found@), lines(v@.skip(pos as int)).push(Seq::empty()), root@).found
                == listed(output@, root@),
        decreases n - pos,
    {
        let mut k = pos;
        while k < n && v[k] != '\n'
            invariant
                v@ == output@,
                n == v@.len(),
                pos <= k <= n,
                forall|j: int| pos <= j < k ==> v@[j] != '\n',
            decreases n - k,
        {
            k = k + 1;
        }
        let ghost rest = v@.skip(pos as int);
        proof {
            lemma_newline_index(rest, k - pos);
        }
        let end = if k < n && k > pos && v[k - 1] == '\r' {
            k - 1
        } else {
            k
        };
        let mut line: Vec<char> = Vec::new();
        let mut i = pos;
        while i < end
            invariant
                v@ == output@,
                pos <= i <= end,
                end <= n,
                n == v@.len(),
                line@ == v@.subrange(pos as int, i as int),
            decreases end - i,
        {
            line.push(v[i]);
            i = i + 1;
            assert(line@ =~= v@.subrange(pos as int, i as int));
        }
        let ghost before = state_view(path, branch, found@);
        read_line(&mut path, &mut branch, &mut found, &line, &rv);
        let next = if k < n {
            k + 1
        } else {
            n
        };
        proof {
            if k < n {
                assert(rest.take(k - pos) =~= v@.subrange(pos as int, k as int));
                if k > pos && v@[k - 1] == '\r' {
                    assert(strip_cr(rest.take(k - pos)) =~= line@);
                } else {
                    assert(strip_cr(rest.take(k - pos)) =~= line@);
                }
                assert(rest.skip(k - pos + 1) =~= v@.skip(next as int));
                assert(lines(rest) =~= seq![line@] + lines(v@.skip(next as int)));
            } else {
                assert(rest =~= line@);
                assert(lines(rest) =~= seq![line@]);
                assert(v@.skip(next as int) =~= Seq::<char>::empty());
                assert(lines(v@.skip(next as int)) =~= Seq::<Seq<char>>::empty());
            }
            let ls = lines(rest).push(Seq::empty());
            assert(ls[0] == line@);
            assert(ls.drop_first() =~= lines(v@.skip(next as int)).push(Seq::empty()));
        }
        pos = next;
    }
    proof {
        assert(v@.skip(pos as int) =~= Seq::<char>::empty());
        assert(lines(v@.skip(pos as int)) =~= Seq::<Seq<char>>::empty());
        let ls = lines(v@.skip(pos as int)).push(Seq::<char>::empty());
        assert(ls.drop_first() =~= Seq::<Seq<char>>::empty());
    }
    let empty: Vec<char> = Vec::new();
    let ghost last = state_view(path, branch, found@);
    read_line(&mut path, &mut branch, &mut found, &empty, &rv);
    proof {
        assert(empty@ =~= Seq::<char>::empty());
        let ls = lines(v@.skip(pos as int)).push(Seq::<char>::empty());
        assert(ls =~= seq![Seq::<char>::empty()]);
        assert(list_run(last, ls, root@) == list_run(list_step(last, ls[0], root@), ls.drop_first(), root@));
    }
    found
}

/// The Nexus worktrees of a listing, ordered by name.
pub fn list_worktrees(output: &str, root: &str) -> (r: Vec<ListedWorktree>)
    ensures
        crate::order::sorted(r@),
        r@.map_values(|w: ListedWorktree| entry_view(w)).to_multiset() == listed(
            output@,
            root@,
        ).to_multiset(),
{
    let parsed = parse_worktree_list(output, root);
    let ghost p = parsed@;
    let sorted = crate::order::stable_sort(parsed);
    proof {
        crate::order::lemma_map_values_multiset(p, sorted@, |w: ListedWorktree| entry_view(w));
    }
    sorted
}

} // verus!
