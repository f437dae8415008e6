use nexus::permissions::{
    enforce, enforce_with_approver, resolve_approval, AskByDefault, PermissionApprover, PermissionDecision, PermissionError, PermissionPolicy, PermissionRequest,
    RuleBasedPolicy,
};

#[test]
fn exact_rule_wins_over_default() {
    let policy = RuleBasedPolicy::new(PermissionDecision::Ask)
        .with_rule("filesystem.read", PermissionDecision::Allow);
    let request = PermissionRequest::new("filesystem.read");

    assert_eq!(policy.evaluate(&request), PermissionDecision::Allow);
}

#[test]
fn wildcard_rule_matches_tool_family() {
    let policy = RuleBasedPolicy::new(PermissionDecision::Deny)
        .with_rule("filesystem.*", PermissionDecision::Allow);
    let request = PermissionRequest::new("filesystem.read");

    assert_eq!(policy.evaluate(&request), PermissionDecision::Allow);
}

#[test]
fn ask_is_not_silently_allowed() {
    let policy = RuleBasedPolicy::new(PermissionDecision::Ask);
    let error = enforce(&policy, &PermissionRequest::new("shell.execute"))
        .expect_err("ask must require explicit approval");

    assert!(matches!(error, PermissionError::ApprovalRequired(_)));
}

#[test]
fn exact_rule_beats_matching_wildcard() {
    let policy = RuleBasedPolicy::new(PermissionDecision::Ask)
        .with_rule("filesystem.*", PermissionDecision::Allow)
        .with_rule("filesystem.read", PermissionDecision::Deny);
    assert_eq!(policy.evaluate(&PermissionRequest::new("filesystem.read")), PermissionDecision::Deny);
    assert_eq!(policy.evaluate(&PermissionRequest::new("filesystem.write")), PermissionDecision::Allow);
}

#[test]
fn longest_wildcard_prefix_wins() {
    let policy = RuleBasedPolicy::new(PermissionDecision::Ask)
        .with_rule("shell.*", PermissionDecision::Deny)
        .with_rule("shell.git.*", PermissionDecision::Allow);
    assert_eq!(policy.evaluate(&PermissionRequest::new("shell.git.status")), PermissionDecision::Allow);
    assert_eq!(policy.evaluate(&PermissionRequest::new("shell.rm")), PermissionDecision::Deny);
    assert_eq!(policy.evaluate(&PermissionRequest::new("network.fetch")), PermissionDecision::Ask);
}

#[test]
fn wildcard_prefix_is_plain_text_prefix() {
    // The prefix `file` (from `file.*`) begins `filesystem.read` as text.
    let policy = RuleBasedPolicy::new(PermissionDecision::Deny).with_rule("file.*", PermissionDecision::Sandbox);
    assert_eq!(policy.evaluate(&PermissionRequest::new("filesystem.read")), PermissionDecision::Sandbox);
    assert_eq!(policy.evaluate(&PermissionRequest::new("fil")), PermissionDecision::Deny);
}

#[test]
fn rewriting_a_rule_replaces_its_decision() {
    let policy = RuleBasedPolicy::new(PermissionDecision::Ask)
        .with_rule("shell.execute", PermissionDecision::Allow)
        .with_rule("shell.execute", PermissionDecision::Deny);
    assert_eq!(policy.evaluate(&PermissionRequest::new("shell.execute")), PermissionDecision::Deny);
    let copy = policy.clone();
    assert_eq!(copy.evaluate(&PermissionRequest::new("shell.execute")), PermissionDecision::Deny);
}

#[test]
fn enforce_maps_every_decision() {
    let policy = RuleBasedPolicy::new(PermissionDecision::Ask)
        .with_rule("a", PermissionDecision::Allow)
        .with_rule("d", PermissionDecision::Deny)
        .with_rule("s", PermissionDecision::Sandbox);
    assert!(matches!(enforce(&policy, &PermissionRequest::new("a")), Ok(PermissionDecision::Allow)));
    match enforce(&policy, &PermissionRequest::new("d")) {
        Err(PermissionError::Denied(action)) => assert_eq!(action, "d"),
        other => panic!("unexpected {other:?}"),
    }
    match enforce(&policy, &PermissionRequest::new("s")) {
        Err(PermissionError::SandboxRequired(action)) => assert_eq!(action, "s"),
        other => panic!("unexpected {other:?}"),
    }
    match enforce(&policy, &PermissionRequest::new("x")) {
        Err(PermissionError::ApprovalRequired(action)) => assert_eq!(action, "x"),
        other => panic!("unexpected {other:?}"),
    }
}

#[test]
fn ask_by_default_always_asks() {
    let policy = AskByDefault;
    assert_eq!(policy.evaluate(&PermissionRequest::new("anything")), PermissionDecision::Ask);
    let dynamic: &dyn PermissionPolicy = &policy;
    assert!(matches!(enforce(dynamic, &PermissionRequest::new("x")), Err(PermissionError::ApprovalRequired(_))));
}

struct Answer(bool);

impl PermissionApprover for Answer {
    fn approve(&self, _request: &PermissionRequest) -> bool {
        self.0
    }
}

#[test]
fn approver_settles_ask_decisions() {
    let policy = RuleBasedPolicy::new(PermissionDecision::Ask)
        .with_rule("filesystem.read", PermissionDecision::Allow)
        .with_rule("shell.exec", PermissionDecision::Deny)
        .with_rule("net.*", PermissionDecision::Sandbox);
    let yes = Answer(true);
    let no = Answer(false);
    let ask = PermissionRequest::new("filesystem.write");

    assert_eq!(enforce_with_approver(&policy, Some(&yes), &ask).unwrap(), PermissionDecision::Allow);
    assert!(matches!(
        enforce_with_approver(&policy, Some(&no), &ask),
        Err(PermissionError::Denied(a)) if a == "filesystem.write"
    ));
    assert!(matches!(
        enforce_with_approver::<_, Answer>(&policy, None, &ask),
        Err(PermissionError::ApprovalRequired(a)) if a == "filesystem.write"
    ));
    let read = PermissionRequest::new("filesystem.read");
    assert!(enforce_with_approver(&policy, Some(&no), &read).is_ok());
    let shell = PermissionRequest::new("shell.exec");
    assert!(matches!(enforce_with_approver(&policy, Some(&yes), &shell), Err(PermissionError::Denied(_))));
    let net = PermissionRequest::new("net.fetch");
    assert!(matches!(
        enforce_with_approver(&policy, Some(&yes), &net),
        Err(PermissionError::SandboxRequired(a)) if a == "net.fetch"
    ));
    assert_eq!(resolve_approval(&ask, true).unwrap(), PermissionDecision::Allow);
    assert!(matches!(resolve_approval(&ask, false), Err(PermissionError::Denied(_))));
}
