//! Permission decisions are explicit, policy-driven, and inspectable.

use vstd::prelude::*;

use crate::text::{chars_of, seq_starts_with};

verus! {

/// The outcome of evaluating a permission request against a policy.
#[derive(Debug, Clone, Copy, PartialEq, Eq, Structural)]
pub enum PermissionDecision {
    Allow,
    Ask,
    Deny,
    Sandbox,
}

/// A request to perform a named action (for example `filesystem.read`).
#[derive(Debug, Clone)]
pub struct PermissionRequest {
    pub action: String,
}

impl PermissionRequest {
    pub fn new(action: &str) -> (r: Self)
        ensures
            r.action@ == action@,
    {
        PermissionRequest { action: action.to_owned() }
    }
}

/// A policy maps each action to a decision. `decide` is the mathematical
/// meaning of the policy; `evaluate` computes it.
pub trait PermissionPolicy: Send + Sync {
    spec fn decide(&self, action: Seq<char>) -> PermissionDecision;

    fn evaluate(&self, request: &PermissionRequest) -> (d: PermissionDecision)
        ensures
            d == self.decide(request.action@),
    ;
}

/// A policy that asks for approval of every action.
#[derive(Debug, Default)]
pub struct AskByDefault;

impl PermissionPolicy for AskByDefault {
    open spec fn decide(&self, action: Seq<char>) -> PermissionDecision {
        PermissionDecision::Ask
    }

    fn evaluate(&self, _request: &PermissionRequest) -> (d: PermissionDecision) {
        PermissionDecision::Ask
    }
}

/// The two characters that turn a rule into a wildcard over an action family.
pub open spec fn wildcard_suffix() -> Seq<char> {
    seq!['.', '*']
}

/// A rule key of the form `<prefix>.*` whose prefix begins `action`.
pub open spec fn wildcard_matches(key: Seq<char>, action: Seq<char>) -> bool {
    &&& key.len() >= 2
    &&& key.subrange(key.len() - 2, key.len() as int) == wildcard_suffix()
    &&& seq_starts_with(action, key.subrange(0, key.len() - 2))
}

/// No key occurs twice among the rules.
pub open spec fn unique_keys(rules: Seq<(Seq<char>, PermissionDecision)>) -> bool {
    forall|i: int, j: int|
        0 <= i < rules.len() && 0 <= j < rules.len() && rules[i].0 == rules[j].0 ==> i == j
}

/// Some rule is keyed exactly by `action`.
pub open spec fn has_exact(rules: Seq<(Seq<char>, PermissionDecision)>, action: Seq<char>) -> bool {
    exists|i: int| 0 <= i < rules.len() && rules[i].0 == action
}

/// Rule `i` is a wildcard that matches `action` with a prefix at least as long
/// as that of every other matching wildcard.
pub open spec fn is_longest_wildcard(
    rules: Seq<(Seq<char>, PermissionDecision)>,
    action: Seq<char>,
    i: int,
) -> bool {
    &&& 0 <= i < rules.len()
    &&& wildcard_matches(rules[i].0, action)
    &&& forall|j: int|
        0 <= j < rules.len() && wildcard_matches(#[trigger] rules[j].0, action) ==> rules[j].0.len()
            <= rules[i].0.len()
}

pub open spec fn has_wildcard(rules: Seq<(Seq<char>, PermissionDecision)>, action: Seq<char>) -> bool {
    exists|i: int| 0 <= i < rules.len() && wildcard_matches(rules[i].0, action)
}

/// The decision of a rule set: an exact rule wins; otherwise the matching
/// wildcard with the longest prefix; otherwise the default.
pub open spec fn rule_decision(
    rules: Seq<(Seq<char>, PermissionDecision)>,
    default: PermissionDecision,
    action: Seq<char>,
) -> PermissionDecision {
    if has_exact(rules, action) {
        rules[choose|i: int| 0 <= i < rules.len() && rules[i].0 == action].1
    } else if has_wildcard(rules, action) {
        rules[choose|i: int| is_longest_wildcard(rules, action, i)].1
    } else {
        default
    }
}

/// Two longest matching wildcards of a rule set without duplicate keys are the same rule.
pub proof fn lemma_longest_wildcard_unique(
    rules: Seq<(Seq<char>, PermissionDecision)>,
    action: Seq<char>,
    i: int,
    j: int,
)
    requires
        unique_keys(rules),
        is_longest_wildcard(rules, action, i),
        is_longest_wildcard(rules, action, j),
    ensures
        i == j,
{
    let ki = rules[i].0;
    let kj = rules[j].0;
    assert(wildcard_matches(rules[j].0, action));
    assert(wildcard_matches(rules[i].0, action));
    assert(ki.len() == kj.len());
    let n = ki.len() as int;
    assert(ki.subrange(0, n - 2) =~= action.subrange(0, n - 2));
    assert(kj.subrange(0, n - 2) =~= action.subrange(0, n - 2));
    assert(ki =~= ki.subrange(0, n - 2) + ki.subrange(n - 2, n));
    assert(kj =~= kj.subrange(0, n - 2) + kj.subrange(n - 2, n));
    assert(ki =~= kj);
}

/// The map from key to decision described by a rule sequence.
pub open spec fn rules_map(rules: Seq<(Seq<char>, PermissionDecision)>) -> Map<Seq<char>, PermissionDecision> {
    Map::new(
        |k: Seq<char>| has_exact(rules, k),
        |k: Seq<char>| rules[choose|i: int| 0 <= i < rules.len() && rules[i].0 == k].1,
    )
}

/// Reading a key of a rule set without duplicates finds its one rule.
pub proof fn lemma_rules_map_index(rules: Seq<(Seq<char>, PermissionDecision)>, i: int)
    requires
        unique_keys(rules),
        0 <= i < rules.len(),
    ensures
        rules_map(rules).contains_key(rules[i].0),
        rules_map(rules)[rules[i].0] == rules[i].1,
{
    let k = rules[i].0;
    let w = choose|j: int| 0 <= j < rules.len() && rules[j].0 == k;
    assert(rules[w].0 == k);
}

/// Replacing the decision of the rule keyed `k` overwrites `k` in the map.
pub proof fn lemma_rules_map_update(
    rules: Seq<(Seq<char>, PermissionDecision)>,
    idx: int,
    d: PermissionDecision,
)
    requires
        unique_keys(rules),
        0 <= idx < rules.len(),
    ensures
        unique_keys(rules.update(idx, (rules[idx].0, d))),
        rules_map(rules.update(idx, (rules[idx].0, d))) == rules_map(rules).insert(rules[idx].0, d),
{
    let k = rules[idx].0;
    let nv = rules.update(idx, (k, d));
    assert forall|a: int, b: int|
        0 <= a < nv.len() && 0 <= b < nv.len() && nv[a].0 == nv[b].0 implies a == b by {
        assert(rules[a].0 == nv[a].0 && rules[b].0 == nv[b].0);
    }
    let lhs = rules_map(nv);
    let rhs = rules_map(rules).insert(k, d);
    assert forall|key: Seq<char>| #[trigger] lhs.dom().contains(key) <==> rhs.dom().contains(key) by {
        if has_exact(rules, key) {
            let w = choose|j: int| 0 <= j < rules.len() && rules[j].0 == key;
            assert(nv[w].0 == key);
        }
        if has_exact(nv, key) {
            let w = choose|j: int| 0 <= j < nv.len() && nv[j].0 == key;
            assert(rules[w].0 == key);
        }
        if key == k {
            assert(nv[idx].0 == key);
        }
    }
    assert forall|key: Seq<char>| lhs.dom().contains(key) implies #[trigger] lhs[key] == rhs[key] by {
        let w = choose|j: int| 0 <= j < nv.len() && nv[j].0 == key;
        assert(rules[w].0 == key);
        lemma_rules_map_index(nv, w);
        if key != k {
            lemma_rules_map_index(rules, w);
        }
    }
    assert(lhs =~= rhs);
}

/// Appending a rule for a new key adds that key to the map.
pub proof fn lemma_rules_map_push(
    rules: Seq<(Seq<char>, PermissionDecision)>,
    k: Seq<char>,
    d: PermissionDecision,
)
    requires
        unique_keys(rules),
        !has_exact(rules, k),
    ensures
        unique_keys(rules.push((k, d))),
        rules_map(rules.push((k, d))) == rules_map(rules).insert(k, d),
{
    let nv = rules.push((k, d));
    let n = rules.len() as int;
    assert forall|a: int, b: int|
        0 <= a < nv.len() && 0 <= b < nv.len() && nv[a].0 == nv[b].0 implies a == b by {
        if a < n && b < n {
            assert(rules[a].0 == nv[a].0 && rules[b].0 == nv[b].0);
        } else if a < n {
            assert(rules[a].0 == k);
        } else if b < n {
            assert(rules[b].0 == k);
        }
    }
    let lhs = rules_map(nv);
    let rhs = rules_map(rules).insert(k, d);
    assert forall|key: Seq<char>| #[trigger] lhs.dom().contains(key) <==> rhs.dom().contains(key) by {
        if has_exact(rules, key) {
            let w = choose|j: int| 0 <= j < rules.len() && rules[j].0 == key;
            assert(nv[w].0 == key);
        }
        if has_exact(nv, key) {
            let w = choose|j: int| 0 <= j < nv.len() && nv[j].0 == key;
            if w < n {
                assert(rules[w].0 == key);
            }
        }
        if key == k {
            assert(nv[n].0 == key);
        }
    }
    assert forall|key: Seq<char>| lhs.dom().contains(key) implies #[trigger] lhs[key] == rhs[key] by {
        let w = choose|j: int| 0 <= j < nv.len() && nv[j].0 == key;
        lemma_rules_map_index(nv, w);
        if key != k {
            assert(w < n);
            assert(rules[w].0 == key);
            lemma_rules_map_index(rules, w);
        }
    }
    assert(lhs =~= rhs);
}

pub open spec fn view_rules(rules: Seq<(String, PermissionDecision)>) -> Seq<(Seq<char>, PermissionDecision)> {
    rules.map_values(|r: (String, PermissionDecision)| (r.0@, r.1))
}

/// An exact rule for the action decides it, whatever the wildcards and the default say.
pub proof fn lemma_exact_rule_wins(
    rules: Seq<(Seq<char>, PermissionDecision)>,
    default: PermissionDecision,
    action: Seq<char>,
)
    requires
        unique_keys(rules),
        rules_map(rules).contains_key(action),
    ensures
        rule_decision(rules, default, action) == rules_map(rules)[action],
{
}

/// Reading back a rule just written: once `action` maps to `d`, the policy decides `d` for it.
pub proof fn lemma_written_rule_is_read(
    rules: Seq<(Seq<char>, PermissionDecision)>,
    before: Seq<(Seq<char>, PermissionDecision)>,
    default: PermissionDecision,
    action: Seq<char>,
    d: PermissionDecision,
)
    requires
        unique_keys(rules),
        rules_map(rules) == rules_map(before).insert(action, d),
    ensures
        rule_decision(rules, default, action) == d,
{
    assert(rules_map(rules).contains_key(action));
    assert(rules_map(rules)[action] == d);
    lemma_exact_rule_wins(rules, default, action);
}

/// Without an exact rule, the matching wildcard with the longest prefix decides.
pub proof fn lemma_longest_wildcard_wins(
    rules: Seq<(Seq<char>, PermissionDecision)>,
    default: PermissionDecision,
    action: Seq<char>,
    i: int,
)
    requires
        unique_keys(rules),
        !rules_map(rules).contains_key(action),
        0 <= i < rules.len(),
        wildcard_matches(rules[i].0, action),
        forall|j: int|
            0 <= j < rules.len() && j != i && wildcard_matches(#[trigger] rules[j].0, action)
                ==> rules[j].0.len() < rules[i].0.len(),
    ensures
        rule_decision(rules, default, action) == rules[i].1,
{
    assert(is_longest_wildcard(rules, action, i));
    let c = choose|j: int| is_longest_wildcard(rules, action, j);
    lemma_longest_wildcard_unique(rules, action, i, c);
}

/// With neither an exact rule nor a matching wildcard, the default decides.
pub proof fn lemma_default_applies(
    rules: Seq<(Seq<char>, PermissionDecision)>,
    default: PermissionDecision,
    action: Seq<char>,
)
    requires
        !rules_map(rules).contains_key(action),
        forall|j: int| 0 <= j < rules.len() ==> !wildcard_matches(#[trigger] rules[j].0, action),
    ensures
        rule_decision(rules, default, action) == default,
{
}

/// A policy of exact and wildcard (`family.*`) rules over a default decision.
#[derive(Debug)]
pub struct RuleBasedPolicy {
    default: PermissionDecision,
    rules: Vec<(String, PermissionDecision)>,
}

impl RuleBasedPolicy {
    /// The rules as keys and decisions, in insertion order.
    pub closed spec fn rules_view(&self) -> Seq<(Seq<char>, PermissionDecision)> {
        view_rules(self.rules@)
    }

    pub closed spec fn default_decision(&self) -> PermissionDecision {
        self.default
    }

    /// The rules as a map from key to decision.
    pub open spec fn rule_map(&self) -> Map<Seq<char>, PermissionDecision> {
        rules_map(self.rules_view())
    }

    #[verifier::type_invariant]
    closed spec fn keys_are_unique(&self) -> bool {
        unique_keys(self.rules_view())
    }

    pub fn new(default: PermissionDecision) -> (p: Self)
        ensures
            p.default_decision() == default,
            p.rules_view() == Seq::<(Seq<char>, PermissionDecision)>::empty(),
            unique_keys(p.rules_view()),
    {
        let rules: Vec<(String, PermissionDecision)> = Vec::new();
        assert(view_rules(rules@) =~= Seq::<(Seq<char>, PermissionDecision)>::empty());
        RuleBasedPolicy { default, rules }
    }

    /// Adds a rule, replacing the decision of an existing rule with the same key.
    pub fn with_rule(self, action: &str, decision: PermissionDecision) -> (p: Self)
        ensures
            p.default_decision() == self.default_decision(),
            p.rule_map() == self.rule_map().insert(action@, decision),
            unique_keys(p.rules_view()),
            has_exact(self.rules_view(), action@) ==> p.rules_view() == self.rules_view().update(
                choose|i: int|
                    0 <= i < self.rules_view().len() && self.rules_view()[i].0 == action@,
                (action@, decision),
            ),
            !has_exact(self.rules_view(), action@) ==> p.rules_view() == self.rules_view().push(
                (action@, decision),
            ),
    {
        proof {
            use_type_invariant(&self);
        }
        let ghost old_view = self.rules_view();
        let ghost old_default = self.default_decision();
        let RuleBasedPolicy { default, mut rules } = self;
        let key = action.to_owned();
        let mut i: usize = 0;
        while i < rules.len()
            invariant
                view_rules(rules@) == old_view,
                old_view == self.rules_view(),
                old_default == self.default_decision(),
                default == old_default,
                unique_keys(old_view),
                i <= rules.len(),
                key@ == action@,
                forall|j: int| 0 <= j < i ==> old_view[j].0 != action@,
            decreases rules.len() - i,
        {
            assert(old_view[i as int].0 == rules@[i as int].0@);
            if rules[i].0 == key {
                let ghost idx = i as int;
                rules.set(i, (key, decision));
                proof {
                    assert(view_rules(rules@) =~= old_view.update(idx, (old_view[idx].0, decision)));
                    lemma_rules_map_update(old_view, idx, decision);
                    let c = choose|j: int| 0 <= j < old_view.len() && old_view[j].0 == action@;
                    assert(old_view[c].0 == old_view[idx].0);
                }
                return RuleBasedPolicy { default, rules };
            }
            i = i + 1;
        }
        rules.push((key, decision));
        proof {
            assert(view_rules(rules@) =~= old_view.push((action@, decision)));
            lemma_rules_map_push(old_view, action@, decision);
        }
        RuleBasedPolicy { default, rules }
    }
}

/// Whether `key` is a wildcard rule `<prefix>.*` whose prefix begins the
/// action with characters `action`; when it is, the key's length.
fn wildcard_key_len(key: &str, action: &Vec<char>) -> (r: Option<usize>)
    ensures
        r is Some <==> wildcard_matches(key@, action@),
        r matches Some(n) ==> n == key@.len(),
{
    let kv = chars_of(key);
    let n = kv.len();
    if n < 2 || kv[n - 2] != '.' || kv[n - 1] != '*' {
        proof {
            if n >= 2 {
                assert(key@.subrange(n - 2, n as int)[0] == kv@[n - 2]);
                assert(key@.subrange(n - 2, n as int)[1] == kv@[n - 1]);
            }
        }
        return None;
    }
    assert(key@.subrange(n - 2, n as int) =~= wildcard_suffix());
    let plen = n - 2;
    if plen > action.len() {
        return None;
    }
    let mut i: usize = 0;
    while i < plen
        invariant
            kv@ == key@,
            plen == n - 2,
            n == kv@.len(),
            plen <= action@.len(),
            i <= plen,
            forall|j: int| 0 <= j < i ==> kv@[j] == action@[j],
        decreases plen - i,
    {
        if kv[i] != action[i] {
            assert(action@.subrange(0, plen as int)[i as int] != key@.subrange(0, plen as int)[i as int]);
            return None;
        }
        i = i + 1;
    }
    assert(action@.subrange(0, plen as int) =~= key@.subrange(0, plen as int));
    Some(n)
}

impl PermissionPolicy for RuleBasedPolicy {
    open spec fn decide(&self, action: Seq<char>) -> PermissionDecision {
        rule_decision(self.rules_view(), self.default_decision(), action)
    }

    fn evaluate(&self, request: &PermissionRequest) -> (d: PermissionDecision) {
        proof {
            use_type_invariant(self);
        }
        let ghost rv = self.rules_view();
        let ghost action = request.action@;
        let mut i: usize = 0;
        while i < self.rules.len()
            invariant
                rv == view_rules(self.rules@),
                unique_keys(rv),
                action == request.action@,
                i <= self.rules.len(),
                forall|j: int| 0 <= j < i ==> rv[j].0 != action,
            decreases self.rules.len() - i,
        {
            assert(rv[i as int].0 == self.rules@[i as int].0@);
            if self.rules[i].0 == request.action {
                proof {
                    let c = choose|j: int| 0 <= j < rv.len() && rv[j].0 == action;
                    assert(rv[c].0 == rv[i as int].0);
                }
                return self.rules[i].1;
            }
            i = i + 1;
        }
        assert(!has_exact(rv, action));
        let action_chars = chars_of(request.action.as_str());
        let mut best: Option<(usize, usize)> = None;
        let mut k: usize = 0;
        while k < self.rules.len()
            invariant
                rv == view_rules(self.rules@),
                unique_keys(rv),
                action == request.action@,
                action_chars@ == action,
                k <= self.rules.len(),
                best matches Some(b) ==> b.0 < k && b.1 == rv[b.0 as int].0.len() && wildcard_matches(
                    rv[b.0 as int].0,
                    action,
                ) && (forall|j: int|
                    0 <= j < k && wildcard_matches(#[trigger] rv[j].0, action) ==> rv[j].0.len()
                        <= b.1),
                best is None ==> forall|j: int| 0 <= j < k ==> !wildcard_matches(#[trigger] rv[j].0, action),
            decreases self.rules.len() - k,
        {
            assert(rv[k as int].0 == self.rules@[k as int].0@);
            let m = wildcard_key_len(self.rules[k].0.as_str(), &action_chars);
            match m {
                Some(len) => {
                    let better = match best {
                        None => true,
                        Some(b) => len > b.1,
                    };
                    if better {
                        best = Some((k, len));
                    }
                },
                None => {},
            }
            k = k + 1;
        }
        match best {
            Some(b) => {
                proof {
                    assert(is_longest_wildcard(rv, action, b.0 as int));
                    let c = choose|j: int| is_longest_wildcard(rv, action, j);
                    lemma_longest_wildcard_unique(rv, action, b.0 as int, c);
                }
                self.rules[b.0].1
            },
            None => self.default,
        }
    }
}

impl Clone for RuleBasedPolicy {
    fn clone(&self) -> (p: Self)
        ensures
            p.default_decision() == self.default_decision(),
            p.rules_view() == self.rules_view(),
            unique_keys(p.rules_view()),
    {
        proof {
            use_type_invariant(self);
        }
        let mut rules: Vec<(String, PermissionDecision)> = Vec::new();
        let mut i: usize = 0;
        while i < self.rules.len()
            invariant
                i <= self.rules.len(),
                rules@.len() == i,
                view_rules(rules@) == view_rules(self.rules@).subrange(0, i as int),
            decreases self.rules.len() - i,
        {
            let entry = (self.rules[i].0.clone(), self.rules[i].1);
            let ghost before = rules@;
            rules.push(entry);
            proof {
                assert(rules@ == before.push(entry));
                assert(view_rules(rules@)[i as int] == (self.rules@[i as int].0@, self.rules@[i as int].1));
            }
            i = i + 1;
            assert(view_rules(rules@) =~= view_rules(self.rules@).subrange(0, i as int));
        }
        assert(view_rules(rules@) =~= view_rules(self.rules@));
        RuleBasedPolicy { default: self.default, rules }
    }
}

/// Why an action may not run without further steps.
#[derive(Debug)]
pub enum PermissionError {
    Denied(String),
    ApprovalRequired(String),
    SandboxRequired(String),
}

/// Lets an action through only when the policy allows it outright; every
/// other decision becomes the matching error, carrying the action.
pub fn enforce<P: PermissionPolicy + ?Sized>(policy: &P, request: &PermissionRequest) -> (r: Result<
    PermissionDecision,
    PermissionError,
>)
    ensures
        (r is Ok) <==> policy.decide(request.action@) == PermissionDecision::Allow,
        r matches Ok(d) ==> d == PermissionDecision::Allow,
        policy.decide(request.action@) == PermissionDecision::Ask <==> (r matches Err(
            PermissionError::ApprovalRequired(a),
        ) && a@ == request.action@),
        policy.decide(request.action@) == PermissionDecision::Deny <==> (r matches Err(
            PermissionError::Denied(a),
        ) && a@ == request.action@),
        policy.decide(request.action@) == PermissionDecision::Sandbox <==> (r matches Err(
            PermissionError::SandboxRequired(a),
        ) && a@ == request.action@),
{
    match policy.evaluate(request) {
        PermissionDecision::Allow => Ok(PermissionDecision::Allow),
        PermissionDecision::Ask => Err(PermissionError::ApprovalRequired(request.action.clone())),
        PermissionDecision::Deny => Err(PermissionError::Denied(request.action.clone())),
        PermissionDecision::Sandbox => Err(PermissionError::SandboxRequired(request.action.clone())),
    }
}

/// Someone who answers `Ask` decisions, such as a person at a terminal.
pub trait PermissionApprover: Send + Sync {
    fn approve(&self, request: &PermissionRequest) -> bool;
}

/// The outcome once an `Ask` decision has been put to an approver: approval
/// allows the action; refusal denies it.
pub fn resolve_approval(request: &PermissionRequest, approved: bool) -> (r: Result<
    PermissionDecision,
    PermissionError,
>)
    ensures
        approved ==> r == Ok::<PermissionDecision, PermissionError>(PermissionDecision::Allow),
        !approved ==> (r matches Err(PermissionError::Denied(a)) && a@ == request.action@),
{
    if approved {
        Ok(PermissionDecision::Allow)
    } else {
        Err(PermissionError::Denied(request.action.clone()))
    }
}

/// Like `enforce`, except that an `Ask` decision goes to the approver when
/// there is one. Without an approver, `Ask` still requires approval.
pub fn enforce_with_approver<P: PermissionPolicy + ?Sized, A: PermissionApprover + ?Sized>(
    policy: &P,
    approver: Option<&A>,
    request: &PermissionRequest,
) -> (r: Result<PermissionDecision, PermissionError>)
    ensures
        r matches Ok(d) ==> d == PermissionDecision::Allow,
        policy.decide(request.action@) == PermissionDecision::Allow ==> r is Ok,
        policy.decide(request.action@) == PermissionDecision::Deny ==> (r matches Err(
            PermissionError::Denied(a),
        ) && a@ == request.action@),
        policy.decide(request.action@) == PermissionDecision::Sandbox ==> (r matches Err(
            PermissionError::SandboxRequired(a),
        ) && a@ == request.action@),
        policy.decide(request.action@) == PermissionDecision::Ask && approver is None ==> (
        r matches Err(PermissionError::ApprovalRequired(a)) && a@ == request.action@),
        policy.decide(request.action@) == PermissionDecision::Ask && approver is Some ==> (r is Ok
            || (r matches Err(PermissionError::Denied(a)) && a@ == request.action@)),
{
    match enforce(policy, request) {
        Err(PermissionError::ApprovalRequired(action)) => match approver {
            Some(a) => resolve_approval(request, a.approve(request)),
            None => Err(PermissionError::ApprovalRequired(action)),
        },
        other => other,
    }
}

} // verus!

verus! {

impl PermissionError {
    /// Whether `text` is how the error reads.
    pub open spec fn message_is(&self, text: Seq<char>) -> bool {
        text == match self {
            PermissionError::Denied(a) => "permission denied for action: "@ + a@,
            PermissionError::ApprovalRequired(a) => "approval required for action: "@ + a@,
            PermissionError::SandboxRequired(a) => "sandbox execution required for action: "@ + a@,
        }
    }

    /// How the error reads.
    pub fn message(&self) -> (r: String)
        ensures
            self.message_is(r@),
    {
        match self {
            PermissionError::Denied(a) => crate::text::prefixed("permission denied for action: ", a.as_str()),
            PermissionError::ApprovalRequired(a) => crate::text::prefixed(
                "approval required for action: ",
                a.as_str(),
            ),
            PermissionError::SandboxRequired(a) => crate::text::prefixed(
                "sandbox execution required for action: ",
                a.as_str(),
            ),
        }
    }
}

} // verus!
