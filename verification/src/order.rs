//! Ordering of names and a stable sort of named items.
//!
//! Names compare lexicographically by Unicode scalar value, which is the order
//! of `str`'s `Ord` (byte-wise on UTF-8 preserves scalar order).

use vstd::prelude::*;

use crate::text::chars_of;

verus! {

/// Lexicographic `<=` on character sequences.
pub open spec fn lex_le(a: Seq<char>, b: Seq<char>) -> bool
    decreases a.len(),
{
    if a.len() == 0 {
        true
    } else if b.len() == 0 {
        false
    } else if (a[0] as int) < (b[0] as int) {
        true
    } else if a[0] == b[0] {
        lex_le(a.drop_first(), b.drop_first())
    } else {
        false
    }
}

/// Any two names are comparable.
pub proof fn lemma_lex_total(a: Seq<char>, b: Seq<char>)
    ensures
        lex_le(a, b) || lex_le(b, a),
    decreases a.len(),
{
    if a.len() > 0 && b.len() > 0 {
        if a[0] == b[0] {
            lemma_lex_total(a.drop_first(), b.drop_first());
        } else {
            assert((a[0] as int) != (b[0] as int));
        }
    }
}

/// The order on names is transitive.
pub proof fn lemma_lex_transitive(a: Seq<char>, b: Seq<char>, c: Seq<char>)
    requires
        lex_le(a, b),
        lex_le(b, c),
    ensures
        lex_le(a, c),
    decreases a.len(),
{
    if a.len() > 0 && b.len() > 0 && c.len() > 0 && a[0] == b[0] && b[0] == c[0] {
        lemma_lex_transitive(a.drop_first(), b.drop_first(), c.drop_first());
    }
}

/// Names that are `<=` each other are equal.
pub proof fn lemma_lex_antisymmetric(a: Seq<char>, b: Seq<char>)
    requires
        lex_le(a, b),
        lex_le(b, a),
    ensures
        a == b,
    decreases a.len(),
{
    if a.len() > 0 && b.len() > 0 {
        lemma_lex_antisymmetric(a.drop_first(), b.drop_first());
        assert(a =~= seq![a[0]] + a.drop_first());
        assert(b =~= seq![b[0]] + b.drop_first());
    }
}

/// Compares two names.
pub fn name_le(a: &str, b: &str) -> (r: bool)
    ensures
        r == lex_le(a@, b@),
{
    let av = chars_of(a);
    let bv = chars_of(b);
    let mut i: usize = 0;
    assert(a@.skip(0) =~= a@);
    assert(b@.skip(0) =~= b@);
    while i < av.len() && i < bv.len() && av[i] == bv[i]
        invariant
            av@ == a@,
            bv@ == b@,
            i <= av@.len(),
            i <= bv@.len(),
            forall|j: int| 0 <= j < i ==> av@[j] == bv@[j],
            lex_le(a@, b@) == lex_le(a@.skip(i as int), b@.skip(i as int)),
        decreases av@.len() - i,
    {
        proof {
            assert(a@.skip(i as int).drop_first() =~= a@.skip(i + 1));
            assert(b@.skip(i as int).drop_first() =~= b@.skip(i + 1));
        }
        i = i + 1;
    }
    if i == av.len() {
        true
    } else if i == bv.len() {
        false
    } else {
        av[i] < bv[i]
    }
}

/// Items with a total preorder on them.
pub trait Keyed {
    spec fn key_le(&self, other: &Self) -> bool;

    proof fn lemma_key_total(a: &Self, b: &Self)
        ensures
            a.key_le(b) || b.key_le(a),
    ;

    proof fn lemma_key_transitive(a: &Self, b: &Self, c: &Self)
        requires
            a.key_le(b),
            b.key_le(c),
        ensures
            a.key_le(c),
    ;

    fn key_le_exec(&self, other: &Self) -> (r: bool)
        ensures
            r == self.key_le(other),
    ;
}

/// Where `x` goes in `s`: just after the leading run of items not after it.
pub open spec fn insert_pos<T: Keyed>(s: Seq<T>, x: T) -> nat
    decreases s.len(),
{
    if s.len() == 0 {
        0
    } else if s[0].key_le(&x) {
        1 + insert_pos(s.drop_first(), x)
    } else {
        0
    }
}

/// The items of `s` in order; items with equal keys keep their order.
pub open spec fn sort_spec<T: Keyed>(s: Seq<T>) -> Seq<T>
    decreases s.len(),
{
    if s.len() == 0 {
        s
    } else {
        let rest = sort_spec(s.drop_last());
        rest.insert(insert_pos(rest, s.last()) as int, s.last())
    }
}

/// Every pair of items is in order.
pub open spec fn sorted<T: Keyed>(s: Seq<T>) -> bool {
    forall|i: int, j: int| #![trigger s[i], s[j]] 0 <= i < j < s.len() ==> s[i].key_le(&s[j])
}

proof fn lemma_insert_pos_bound<T: Keyed>(s: Seq<T>, x: T)
    ensures
        insert_pos(s, x) <= s.len(),
        forall|k: int| 0 <= k < insert_pos(s, x) ==> (#[trigger] s[k]).key_le(&x),
        insert_pos(s, x) < s.len() ==> !s[insert_pos(s, x) as int].key_le(&x),
    decreases s.len(),
{
    if s.len() > 0 && s[0].key_le(&x) {
        lemma_insert_pos_bound(s.drop_first(), x);
        assert forall|k: int| 0 <= k < insert_pos(s, x) implies (#[trigger] s[k]).key_le(&x) by {
            if k > 0 {
                assert(s[k] == s.drop_first()[k - 1]);
            }
        }
    }
}

/// Inserting at `insert_pos` keeps a sorted sequence sorted.
proof fn lemma_insert_sorted<T: Keyed>(s: Seq<T>, x: T)
    requires
        sorted(s),
    ensures
        sorted(s.insert(insert_pos(s, x) as int, x)),
{
    lemma_insert_pos_bound(s, x);
    let p = insert_pos(s, x) as int;
    let t = s.insert(p, x);
    assert forall|i: int, j: int| 0 <= i < j < t.len() implies #[trigger] t[i].key_le(&t[j]) by {
        if j < p {
            assert(t[i] == s[i] && t[j] == s[j]);
        } else if j == p {
            assert(t[i] == s[i]);
        } else if i == p {
            assert(t[j] == s[j - 1]);
            assert(!s[p].key_le(&x));
            T::lemma_key_total(&s[p], &x);
            if j - 1 > p {
                T::lemma_key_transitive(&x, &s[p], &s[j - 1]);
            }
        } else if i < p {
            assert(t[i] == s[i] && t[j] == s[j - 1]);
        } else {
            assert(t[i] == s[i - 1] && t[j] == s[j - 1]);
        }
    }
}

/// Inserting an item adds it to the multiset of items.
proof fn lemma_insert_multiset<T>(s: Seq<T>, p: int, x: T)
    requires
        0 <= p <= s.len(),
    ensures
        s.insert(p, x).to_multiset() == s.to_multiset().insert(x),
{
    broadcast use vstd::seq_lib::group_to_multiset_ensures;
    broadcast use vstd::multiset::group_multiset_axioms;

    let t = s.insert(p, x);
    assert(t.remove(p) =~= s);
    assert(t[p] == x);
    assert(t.remove(p).to_multiset() =~= t.to_multiset().remove(x));
    assert(t.contains(x));
    assert(t.to_multiset().count(x) > 0);
    assert(t.to_multiset() =~= t.to_multiset().remove(x).insert(x));
}

/// The stable sort orders its items and keeps exactly the same items.
pub proof fn lemma_sort<T: Keyed>(s: Seq<T>)
    ensures
        sorted(sort_spec(s)),
        sort_spec(s).to_multiset() == s.to_multiset(),
        sort_spec(s).len() == s.len(),
    decreases s.len(),
{
    broadcast use vstd::seq_lib::group_to_multiset_ensures;

    if s.len() > 0 {
        let rest = sort_spec(s.drop_last());
        lemma_sort(s.drop_last());
        lemma_insert_sorted(rest, s.last());
        lemma_insert_pos_bound(rest, s.last());
        lemma_insert_multiset(rest, insert_pos(rest, s.last()) as int, s.last());
        assert(s.drop_last().push(s.last()) =~= s);
    }
}

/// Sorts items, stably: items that compare equal keep their order.
pub fn stable_sort<T: Keyed>(items: Vec<T>) -> (r: Vec<T>)
    ensures
        r@ == sort_spec(items@),
        sorted(r@),
        r@.to_multiset() == items@.to_multiset(),
{
    let ghost input = items@;
    let mut out: Vec<T> = Vec::new();
    let mut rest = items;
    let n = rest.len();
    assert(out@ =~= sort_spec(input.take(0)));
    let mut i: usize = 0;
    while rest.len() > 0
        invariant
            i + rest@.len() == input.len(),
            input.len() == n,
            i <= input.len(),
            rest@ == input.skip(i as int),
            out@ == sort_spec(input.take(i as int)),
        decreases rest@.len(),
    {
        let x = rest.remove(0);
        assert(x == input[i as int]);
        assert(rest@ =~= input.skip(i + 1));
        let ghost before = out@;
        let mut p: usize = 0;
        assert(before.skip(0) =~= before);
        while p < out.len() && out[p].key_le_exec(&x)
            invariant
                out@ == before,
                p <= out@.len(),
                insert_pos(before, x) == p + insert_pos(before.skip(p as int), x),
            decreases out@.len() - p,
        {
            proof {
                assert(before.skip(p as int).drop_first() =~= before.skip(p + 1));
            }
            p = p + 1;
        }
        proof {
            if p < out@.len() {
                assert(before.skip(p as int)[0] == before[p as int]);
            }
        }
        assert(insert_pos(before, x) == p);
        out.insert(p, x);
        proof {
            assert(input.take(i + 1).drop_last() =~= input.take(i as int));
            assert(input.take(i + 1).last() == x);
        }
        i = i + 1;
    }
    assert(input.take(i as int) =~= input);
    proof {
        lemma_sort(input);
    }
    out
}

} // verus!

verus! {

/// Mapping the items of two sequences that hold the same items gives sequences that hold the same values.
pub proof fn lemma_map_values_multiset<T, U>(a: Seq<T>, b: Seq<T>, f: spec_fn(T) -> U)
    requires
        a.to_multiset() == b.to_multiset(),
    ensures
        a.map_values(f).to_multiset() == b.map_values(f).to_multiset(),
    decreases a.len(),
{
    broadcast use vstd::seq_lib::group_to_multiset_ensures;
    broadcast use vstd::multiset::group_multiset_axioms;

    if a.len() == 0 {
        assert(b.to_multiset().len() == 0);
        assert(b.len() == 0);
        assert(a.map_values(f) =~= b.map_values(f));
    } else {
        let x = a.last();
        assert(a.to_multiset().count(x) > 0) by {
            assert(a.contains(x)) by {
                assert(a[a.len() - 1] == x);
            }
        }
        assert(b.contains(x));
        let k = choose|k: int| 0 <= k < b.len() && b[k] == x;
        let a2 = a.drop_last();
        let b2 = b.remove(k);
        assert(a2.push(x) =~= a);
        assert(a2.to_multiset() =~= a.to_multiset().remove(x)) by {
            assert(a.remove(a.len() - 1) =~= a2);
        }
        assert(b2.to_multiset() =~= b.to_multiset().remove(x));
        lemma_map_values_multiset(a2, b2, f);
        assert(a.map_values(f) =~= a2.map_values(f).push(f(x)));
        assert(b.map_values(f).remove(k) =~= b2.map_values(f));
        assert(b.map_values(f)[k] == f(x));
        assert(b.map_values(f).to_multiset() =~= b2.map_values(f).to_multiset().insert(f(x))) by {
            let bm = b.map_values(f);
            assert(bm.remove(k).to_multiset() =~= bm.to_multiset().remove(f(x)));
            assert(bm.contains(f(x)));
            assert(bm.to_multiset().count(f(x)) > 0);
        }
    }
}

} // verus!
