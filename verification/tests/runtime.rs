use nexus::config::Config;
use nexus::models::{ChatMessage, MessageRole, ModelError, ModelId, ModelReply, ToolCall, Usage};
use nexus::runtime::{
    add_usage, has_instructions, AgentRuntime, AuditRecord, CancelPoint, LoopAction, LoopPhase, RuntimeError,
    StreamTranscript, ToolLoop,
};
use nexus::tools::ToolError;

fn reply(text: &str, calls: Vec<ToolCall>, input: u64, output: u64) -> ModelReply {
    ModelReply {
        model: ModelId("mock-1".to_owned()),
        message: ChatMessage::new(MessageRole::Assistant, text),
        tool_calls: calls,
        usage: Usage { input_tokens: input, output_tokens: output },
    }
}

fn call(id: &str, name: &str) -> ToolCall {
    ToolCall { id: id.to_owned(), name: name.to_owned(), arguments: serde_json::Value::Null }
}

#[test]
fn start_checks_steps_and_capabilities() {
    assert!(matches!(ToolLoop::start("p", None, 0, false, true), Err(RuntimeError::InvalidMaxSteps)));
    match ToolLoop::start("p", None, 3, true, false) {
        Err(RuntimeError::Model(ModelError::Unsupported(what))) => assert_eq!(what, "tool_calling"),
        _ => panic!("expected unsupported"),
    }
    let (lp, record) = ToolLoop::start("prompt", Some("  be brief "), 3, true, true).unwrap();
    assert!(matches!(record, AuditRecord::RunStarted { max_steps: 3, has_instructions: true }));
    assert_eq!(lp.messages().len(), 2);
    assert_eq!(lp.messages()[0].role, MessageRole::System);
    assert_eq!(lp.messages()[1].content, "prompt");
    let (lp, record) = ToolLoop::start("prompt", Some(" \n "), 3, false, false).unwrap();
    assert!(matches!(record, AuditRecord::RunStarted { has_instructions: false, .. }));
    assert_eq!(lp.messages().len(), 1);
    assert!(!has_instructions(None));
}

#[test]
fn a_reply_without_tool_calls_completes_the_run() {
    let (lp, _) = ToolLoop::start("hi", None, 2, false, false).unwrap();
    let (lp, record, action) = lp.next(false);
    assert!(matches!(record, AuditRecord::ModelRequested { step: 0, messages: 1 }));
    assert!(matches!(action, LoopAction::RequestModel));
    let (lp, done) = lp.on_model_reply(reply("hello", vec![], 3, 4));
    let (record, completion) = done.expect("completed");
    assert!(matches!(record, AuditRecord::RunCompleted { input_tokens: 3, output_tokens: 4 }));
    assert_eq!(completion.message, "hello");
    assert_eq!(completion.model, "mock-1");
    assert_eq!(lp.phase(), LoopPhase::Done);
}

#[test]
fn tool_calls_run_in_order_and_usage_adds_up() {
    let (lp, _) = ToolLoop::start("task", None, 5, true, true).unwrap();
    let (lp, _, _) = lp.next(false);
    let (lp, done) = lp.on_model_reply(reply("", vec![call("1", "a"), call("2", "b")], 1, 1));
    assert!(done.is_none());
    let (lp, record, action) = lp.next(false);
    assert!(matches!(record, AuditRecord::ToolRequested { ref id, .. } if id == "1"));
    assert!(matches!(action, LoopAction::RunTool(ref c) if c.name == "a"));
    let (lp, record, err) = lp.on_tool_output(Ok("\"out-a\"".to_owned()));
    assert!(matches!(record, AuditRecord::ToolCompleted { ref name, .. } if name == "a"));
    assert!(err.is_none());
    let (lp, _, action) = lp.next(false);
    assert!(matches!(action, LoopAction::RunTool(ref c) if c.id == "2"));
    let (lp, _, _) = lp.on_tool_output(Ok("\"out-b\"".to_owned()));
    assert_eq!(lp.phase(), LoopPhase::NeedModel);
    assert_eq!(lp.messages().len(), 4);
    assert_eq!(lp.messages()[3].tool_call_id.as_deref(), Some("2"));
    assert_eq!(lp.messages()[3].role, MessageRole::Tool);
    let (lp, record, _) = lp.next(false);
    assert!(matches!(record, AuditRecord::ModelRequested { step: 1, messages: 4 }));
    let (_, done) = lp.on_model_reply(reply("done", vec![], 10, 20));
    let (_, completion) = done.unwrap();
    assert_eq!(completion.usage, Usage { input_tokens: 11, output_tokens: 21 });
}

#[test]
fn the_step_budget_ends_a_run() {
    let (lp, _) = ToolLoop::start("task", None, 1, true, true).unwrap();
    let (lp, _, _) = lp.next(false);
    let (lp, _) = lp.on_model_reply(reply("", vec![call("1", "a")], 0, 0));
    let (lp, _, _) = lp.next(false);
    let (lp, _, _) = lp.on_tool_output(Ok("null".to_owned()));
    // The budget is checked before cancellation.
    let (lp, record, action) = lp.next(true);
    assert!(matches!(record, AuditRecord::RunMaxSteps { max_steps: 1 }));
    assert!(matches!(action, LoopAction::Fail(RuntimeError::MaxToolSteps(1))));
    assert_eq!(lp.phase(), LoopPhase::Done);
}

#[test]
fn cancellation_is_noticed_before_model_and_tool_calls() {
    let (lp, _) = ToolLoop::start("task", None, 4, true, true).unwrap();
    let (_, record, action) = lp.next(true);
    assert!(matches!(record, AuditRecord::RunCancelled { step: 0, during: None }));
    assert!(matches!(action, LoopAction::Fail(RuntimeError::Cancelled)));

    let (lp, _) = ToolLoop::start("task", None, 4, true, true).unwrap();
    let (lp, _, _) = lp.next(false);
    let (lp, _) = lp.on_model_reply(reply("", vec![call("1", "a")], 0, 0));
    let (_, record, action) = lp.next(true);
    assert!(matches!(record, AuditRecord::RunCancelled { step: 0, during: Some(CancelPoint::Tool) }));
    assert!(matches!(action, LoopAction::Fail(RuntimeError::Cancelled)));

    let (lp, _) = ToolLoop::start("task", None, 4, true, true).unwrap();
    let (lp, _, _) = lp.next(false);
    let (_, record, error) = lp.on_cancelled(CancelPoint::Model);
    assert!(matches!(record, AuditRecord::RunCancelled { during: Some(CancelPoint::Model), .. }));
    assert!(matches!(error, RuntimeError::Cancelled));
}

#[test]
fn a_failed_tool_ends_the_run() {
    let (lp, _) = ToolLoop::start("task", None, 4, true, true).unwrap();
    let (lp, _, _) = lp.next(false);
    let (lp, _) = lp.on_model_reply(reply("", vec![call("7", "shell.execute")], 0, 0));
    let (lp, _, _) = lp.next(false);
    let (lp, record, error) = lp.on_tool_error(RuntimeError::Tool(ToolError::NotFound("shell.execute".to_owned())));
    assert!(matches!(record, AuditRecord::ToolFailed { ref id, .. } if id == "7"));
    assert!(matches!(error, RuntimeError::Tool(ToolError::NotFound(_))));
    assert_eq!(lp.phase(), LoopPhase::Done);
}

#[test]
fn usage_adds_and_runtime_reports() {
    let mut total = Usage { input_tokens: 1, output_tokens: 2 };
    add_usage(&mut total, &Usage { input_tokens: 3, output_tokens: 4 });
    assert_eq!(total, Usage { input_tokens: 4, output_tokens: 6 });
    let runtime = AgentRuntime::new(Config::default(), (), ModelId("m".to_owned()));
    assert_eq!(runtime.default_agent(), "nexus-engineer");
    let result = runtime.result_from_response("t".to_owned(), "mock", reply("answer", vec![], 1, 1));
    assert_eq!((result.provider.as_str(), result.model.as_str(), result.message.as_str()), ("mock", "mock-1", "answer"));
}

#[test]
fn stream_transcript_collects_deltas_and_final_usage() {
    let mut t = StreamTranscript::new();
    assert_eq!(t.message, "");
    t.on_delta("Hel");
    t.on_delta("lo");
    t.on_completed(Usage { input_tokens: 3, output_tokens: 2 });
    assert_eq!(t.message, "Hello");
    assert_eq!(t.usage, Usage { input_tokens: 3, output_tokens: 2 });
}
