use nexus::tui::{
    format_event, tab_content, tab_title, AgentEvent, AgentRole, App, Focus, Key, KeyAction, RuntimeBridge,
    RuntimeCommand,
};

#[test]
fn console_starts_on_the_first_tab_with_the_bridge_online() {
    let app = App::new();
    assert_eq!(app.tab(), 0);
    assert_eq!(app.focus(), Focus::Tabs);
    assert_eq!(app.command(), "");
    assert_eq!(app.events().clone(), vec!["system.ready · runtime command and event bridges online"]);
    assert!(!app.should_quit());
    assert_eq!(app.status(), "Ready · runtime command bridge online");
    assert_eq!(app.selected_event(), 0);
    assert_eq!(tab_title(app.tab()), "Run");
}

#[test]
fn tabs_move_within_bounds() {
    let mut app = App::new();
    app.handle_key(Key::Left);
    assert_eq!(app.tab(), 0);
    for _ in 0..10 {
        app.handle_key(Key::Right);
    }
    assert_eq!(app.tab(), 5);
    assert_eq!(tab_title(app.tab()), "Help");
    assert!(tab_content(5).starts_with("Tab: change focus"));
    assert_eq!(tab_content(9), tab_content(5));
    app.handle_key(Key::Tab);
    app.handle_key(Key::Left);
    assert_eq!(app.tab(), 5);
}

#[test]
fn focus_cycles_and_escape_returns_to_tabs() {
    let mut app = App::new();
    app.handle_key(Key::Tab);
    assert_eq!(app.focus(), Focus::Command);
    app.handle_key(Key::Tab);
    assert_eq!(app.focus(), Focus::Timeline);
    app.handle_key(Key::Tab);
    assert_eq!(app.focus(), Focus::Tabs);
    app.handle_key(Key::Tab);
    app.handle_key(Key::Char('x'));
    app.handle_key(Key::Esc);
    assert_eq!(app.focus(), Focus::Tabs);
    assert_eq!(app.command(), "");
}

#[test]
fn q_and_c_act_only_outside_the_command_line() {
    let mut app = App::new();
    app.handle_key(Key::Tab);
    assert!(matches!(app.handle_key(Key::Char('q')), KeyAction::Nothing));
    assert!(matches!(app.handle_key(Key::Char('c')), KeyAction::Nothing));
    assert_eq!(app.command(), "qc");
    assert!(!app.should_quit());
    app.handle_key(Key::Tab);
    assert!(matches!(app.handle_key(Key::Char('c')), KeyAction::Cancel));
    assert_eq!(app.status(), "Cancellation requested");
    assert!(matches!(app.handle_key(Key::Char('q')), KeyAction::Nothing));
    assert!(app.should_quit());
}

#[test]
fn typing_editing_and_dispatching_a_command() {
    let mut app = App::new();
    app.handle_key(Key::Tab);
    for c in "  fix bugs  x".chars() {
        app.handle_key(Key::Char(c));
    }
    app.handle_key(Key::Backspace);
    app.handle_key(Key::Backspace);
    assert_eq!(app.command(), "  fix bugs ");
    let command = match app.handle_key(Key::Enter) {
        KeyAction::Run(c) => c,
        _ => panic!("expected a run"),
    };
    assert_eq!(command, "fix bugs");
    assert_eq!(app.command(), "  fix bugs ");
    app.dispatched(&command, true);
    assert_eq!(app.command(), "");
    assert_eq!(app.status(), "Dispatching: fix bugs");
    assert_eq!(app.events().last().unwrap(), "command.dispatched · fix bugs");
    assert_eq!(app.selected_event(), 1);
    app.dispatched("other", false);
    assert_eq!(app.status(), "Runtime bridge offline");
    assert_eq!(app.events().last().unwrap(), "command.failed · runtime bridge offline");
    assert_eq!(app.selected_event(), 2);
}

#[test]
fn blank_commands_are_not_dispatched() {
    let mut app = App::new();
    app.handle_key(Key::Tab);
    app.handle_key(Key::Char(' '));
    assert!(matches!(app.handle_key(Key::Enter), KeyAction::Nothing));
    assert_eq!(app.command(), " ");
    app.handle_key(Key::Backspace);
    app.handle_key(Key::Backspace);
    assert_eq!(app.command(), "");
}

#[test]
fn events_are_formatted_for_the_timeline() {
    let ev = |e: AgentEvent| format_event(&e);
    assert_eq!(ev(AgentEvent::RunStarted { run_name: "r".into() }), "run.started · r");
    assert_eq!(
        ev(AgentEvent::LayerStarted { tasks: vec!["a".into(), "b".into(), "c".into()] }),
        "layer.started · a, b, c"
    );
    assert_eq!(ev(AgentEvent::LayerStarted { tasks: vec![] }), "layer.started · ");
    assert_eq!(
        ev(AgentEvent::WorkerStarted { task_id: "t".into(), agent_index: 9, workspace: "w".into() }),
        "worker.started · t · worker 10 · w"
    );
    assert_eq!(
        ev(AgentEvent::WorkerCompleted { task_id: "t".into(), agent_index: 0 }),
        "worker.completed · t · worker 1"
    );
    assert_eq!(
        ev(AgentEvent::WorkerFailed { task_id: "t".into(), agent_index: 1, error: "boom".into() }),
        "worker.failed · t · worker 2 · boom"
    );
    assert_eq!(
        ev(AgentEvent::RoleStarted { role: AgentRole::Supervisor, task_id: "t".into() }),
        "role.started · Supervisor · t"
    );
    assert_eq!(
        ev(AgentEvent::RoleCompleted { role: AgentRole::Inspector, task_id: "t".into() }),
        "role.completed · Inspector · t"
    );
    assert_eq!(format!("{:?}", AgentRole::Worker), "Worker");
    assert_eq!(ev(AgentEvent::RunCompleted { run_name: "r".into() }), "run.completed · r");
    assert_eq!(ev(AgentEvent::RunCancelled { run_name: "r".into() }), "run.cancelled · r");
}

#[test]
fn run_events_update_status_and_selection() {
    let mut app = App::new();
    app.on_event(&AgentEvent::RunStarted { run_name: "tui-x".into() });
    assert_eq!(app.status(), "Running: tui-x");
    app.on_event(&AgentEvent::LayerStarted { tasks: vec!["x".into()] });
    assert_eq!(app.status(), "Running: tui-x");
    app.on_event(&AgentEvent::WorkerFailed { task_id: "x".into(), agent_index: 0, error: "no".into() });
    assert_eq!(app.status(), "Worker failed: no");
    app.on_event(&AgentEvent::RunCancelled { run_name: "tui-x".into() });
    assert_eq!(app.status(), "Run cancelled");
    app.on_event(&AgentEvent::RunCompleted { run_name: "tui-x".into() });
    assert_eq!(app.status(), "Run completed");
    assert_eq!(app.events().len(), 6);
    assert_eq!(app.selected_event(), 5);
    assert_eq!(app.sidebar_title(), "Agents · 1 worker events");
}

#[test]
fn timeline_shows_the_last_ten_entries_and_marks_the_selection() {
    let mut app = App::new();
    for i in 0..12 {
        app.on_event(&AgentEvent::RunStarted { run_name: format!("r{i}") });
    }
    let lines = app.timeline();
    assert_eq!(lines.len(), 10);
    assert_eq!(lines[0], "  run.started · r2");
    assert_eq!(lines[9], "▶ run.started · r11");
    app.handle_key(Key::Tab);
    app.handle_key(Key::Tab);
    app.handle_key(Key::Up);
    app.handle_key(Key::Up);
    assert_eq!(app.selected_event(), 10);
    assert_eq!(app.timeline()[7], "▶ run.started · r9");
    app.handle_key(Key::Down);
    app.handle_key(Key::Down);
    app.handle_key(Key::Down);
    assert_eq!(app.selected_event(), 12);
}

#[test]
fn prompt_and_command_title() {
    let mut app = App::new();
    assert_eq!(app.prompt_line(), "> ");
    app.handle_key(Key::Tab);
    app.handle_key(Key::Char('a'));
    assert_eq!(app.prompt_line(), "> a▌");
    assert_eq!(app.command_title(), "Command · Ready · runtime command bridge online · Tab focus · c cancel · q quit");
}

#[test]
fn bridge_reports_a_whole_run_and_ignores_idle_cancellation() {
    let mut bridge = RuntimeBridge::new();
    let (events, stop) = bridge.on_command(RuntimeCommand::Run("  build the docs".into()));
    assert!(!stop);
    let lines: Vec<String> = events.iter().map(format_event).collect();
    assert_eq!(
        lines,
        vec![
            "run.started · tui-build",
            "layer.started ·   build the docs",
            "worker.started ·   build the docs · worker 1 · runtime-dispatch",
            "worker.completed ·   build the docs · worker 1",
            "run.completed · tui-build",
        ]
    );
    let (events, _) = bridge.on_command(RuntimeCommand::Run("   ".into()));
    assert!(matches!(&events[0], AgentEvent::RunStarted { run_name } if run_name == "tui-run"));
    let (events, stop) = bridge.on_command(RuntimeCommand::Cancel);
    assert!(events.is_empty() && !stop);
    let (events, stop) = bridge.on_command(RuntimeCommand::Shutdown);
    assert!(events.is_empty() && stop);
}
