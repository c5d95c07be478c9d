use rose_buddy::llm_client::{ChatChoice, ChatCompletionRequest, ChatCompletionResponse, ChatMessage, FunctionCall, FunctionDefinition, ToolCall, ToolDefinition};

#[test]
fn test_chat_message_system() {
    let msg = ChatMessage::system("You are a helpful assistant.");
    assert_eq!(msg.role, "system");
    assert_eq!(msg.content, Some("You are a helpful assistant.".to_string()));
    assert!(msg.tool_calls.is_none());
}

#[test]
fn test_chat_message_user() {
    let msg = ChatMessage::user("Hello!");
    assert_eq!(msg.role, "user");
    assert_eq!(msg.content, Some("Hello!".to_string()));
}

#[test]
fn test_response_first_tool_call() {
    let response = ChatCompletionResponse {
        id: "test".to_string(),
        object: "chat.completion".to_string(),
        created: 1234567890,
        model: "local".to_string(),
        choices: vec![ChatChoice {
            index: 0,
            message: ChatMessage::assistant_with_tool_calls(vec![ToolCall::new(
                "call_123",
                FunctionCall::new("test_fn", r#"{"arg":1}"#),
            )]),
            finish_reason: Some("tool_calls".to_string()),
        }],
        usage: None,
    };

    let tool_call = response.first_tool_call().unwrap();
    assert_eq!(tool_call.id, "call_123");
    assert_eq!(tool_call.function.name, "test_fn");
}

#[test]
fn response_without_choices_has_no_tool_call() {
    let response = ChatCompletionResponse {
        id: "x".to_string(),
        object: "chat.completion".to_string(),
        created: 0,
        model: "m".to_string(),
        choices: vec![],
        usage: None,
    };
    assert!(response.first_tool_call().is_none());
    assert!(response.first_message().is_none());
}

#[test]
fn request_with_tools_asks_for_automatic_choice() {
    let tool = ToolDefinition::function(FunctionDefinition::new("f", "d"));
    let request = ChatCompletionRequest::new("local-model", vec![ChatMessage::user("hi")])
        .with_tools(vec![tool])
        .with_max_tokens(100);
    assert_eq!(request.model, "local-model");
    assert_eq!(request.max_tokens, Some(100));
    assert_eq!(request.tool_choice, Some("auto".to_string()));
    assert_eq!(request.tools.map(|t| t.len()), Some(1));
}

#[test]
fn tool_response_message_carries_call_id() {
    let msg = ChatMessage::tool_response("call_9", "done");
    assert_eq!(msg.role, "tool");
    assert_eq!(msg.tool_call_id, Some("call_9".to_string()));
    assert_eq!(msg.content, Some("done".to_string()));
}
