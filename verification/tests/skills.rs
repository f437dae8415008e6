use std::path::PathBuf;

use nexus::skills::{event_key, load_skill, sort_skills, HookConfig, HookEvent, Skill, SkillError};

#[test]
fn missing_hook_returns_empty_command_list() {
    let config = HookConfig::default();
    assert!(config.commands(HookEvent::BeforeTool).is_empty());
}

fn skill(name: &str, text: &str) -> Skill {
    Skill { name: name.to_owned(), path: PathBuf::from(format!("{name}/SKILL.md")), instructions: text.to_owned() }
}

#[test]
fn configured_hooks_are_returned_in_order() {
    let config = HookConfig {
        hooks: vec![
            ("before_tool".to_owned(), vec!["fmt".to_owned(), "lint".to_owned()]),
            ("run_failed".to_owned(), vec!["notify".to_owned()]),
        ],
    };
    assert_eq!(config.commands(HookEvent::BeforeTool), ["fmt".to_owned(), "lint".to_owned()]);
    assert_eq!(config.commands(HookEvent::RunFailed), ["notify".to_owned()]);
    assert!(config.commands(HookEvent::AfterTool).is_empty());
}

#[test]
fn event_keys_are_snake_case() {
    let all = [
        (HookEvent::RunStarted, "run_started"),
        (HookEvent::BeforeModel, "before_model"),
        (HookEvent::BeforeTool, "before_tool"),
        (HookEvent::AfterTool, "after_tool"),
        (HookEvent::RunCompleted, "run_completed"),
        (HookEvent::RunFailed, "run_failed"),
    ];
    for (event, key) in all {
        assert_eq!(event_key(event), key);
    }
}

#[test]
fn load_skill_finds_by_name_or_reports_missing() {
    let skills = sort_skills(vec![skill("triage", "r"), skill("debug", "d")]);
    assert_eq!(skills[0].name, "debug");
    let found = load_skill(skills.clone(), "triage").expect("skill exists");
    assert_eq!(found.instructions, "r");
    match load_skill(skills, "deploy") {
        Err(SkillError::NotFound(name)) => assert_eq!(name, "deploy"),
        other => panic!("unexpected {other:?}"),
    }
}
