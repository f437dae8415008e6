use nexus::mcp::{match_response, take_request_id, McpError, McpServerCommand, McpTool, McpToolAdapter, RpcResponse, RpcStep};

#[test]
fn adapter_namespaces_remote_tools() {
    let tool = McpToolAdapter::new(
        McpServerCommand::new("server"),
        McpTool { name: "search".to_owned(), description: "Search".to_owned(), input_schema: serde_json::from_str("{}").unwrap() },
    );
    assert_eq!(tool.metadata().name, "mcp.search");
}

#[test]
fn adapter_keeps_remote_name_and_description() {
    let tool = McpToolAdapter::new(
        McpServerCommand::new("server"),
        McpTool { name: "fetch".to_owned(), description: "Fetch a URL".to_owned(), input_schema: serde_json::Value::Null },
    );
    assert_eq!(tool.remote_name(), "fetch");
    assert_eq!(tool.metadata().description, "Fetch a URL");
    assert_eq!(tool.command().program, "server");
    assert!(tool.command().args.is_empty() && tool.command().env.is_empty());
}

#[test]
fn responses_are_matched_by_id() {
    let other = RpcResponse { id: Some(2), result: Some(serde_json::Value::Bool(true)), error_message: None };
    assert!(matches!(match_response(1, other), RpcStep::Skip));
    let notification = RpcResponse { id: None, result: None, error_message: None };
    assert!(matches!(match_response(1, notification), RpcStep::Skip));
    let failed = RpcResponse { id: Some(1), result: None, error_message: Some("boom".to_owned()) };
    assert!(matches!(match_response(1, failed), RpcStep::Done(Err(McpError::Remote(m))) if m == "boom"));
    let empty = RpcResponse { id: Some(1), result: None, error_message: None };
    assert!(matches!(match_response(1, empty), RpcStep::Done(Err(McpError::Protocol(m))) if m == "response missing result"));
    let ok = RpcResponse { id: Some(1), result: Some(serde_json::Value::Bool(true)), error_message: None };
    assert!(matches!(match_response(1, ok), RpcStep::Done(Ok(serde_json::Value::Bool(true)))));
}

#[test]
fn request_ids_count_up_and_saturate() {
    let mut next = 1u64;
    assert_eq!(take_request_id(&mut next), 1);
    assert_eq!(take_request_id(&mut next), 2);
    assert_eq!(next, 3);
    let mut top = u64::MAX;
    assert_eq!(take_request_id(&mut top), u64::MAX);
    assert_eq!(top, u64::MAX);
}
