use async_openai::types::chat::{
    ChatCompletionMessageCustomToolCall, ChatCompletionMessageToolCall, ChatCompletionMessageToolCalls,
    ChatCompletionRequestAssistantMessage, ChatCompletionRequestAssistantMessageContent,
    ChatCompletionRequestMessage, ChatCompletionRequestSystemMessage,
    ChatCompletionRequestSystemMessageContent, ChatCompletionRequestUserMessage,
    ChatCompletionRequestUserMessageContent, ChatCompletionTool, ChatCompletionTools, CustomTool,
    FunctionCall, FunctionObject,
};
use botframework::ai::{
    build_chat_messages, get_tool_calls, plan_ai_reply, tool_call_history_note, tools_for_request,
};
use botframework::{create_ai_fun, props_to_json, Property};

fn user(t: &str) -> ChatCompletionRequestMessage {
    ChatCompletionRequestMessage::User(ChatCompletionRequestUserMessage {
        content: ChatCompletionRequestUserMessageContent::Text(t.to_string()),
        name: None,
    })
}

#[allow(deprecated)]
fn assistant(t: &str) -> ChatCompletionRequestMessage {
    ChatCompletionRequestMessage::Assistant(ChatCompletionRequestAssistantMessage {
        content: Some(ChatCompletionRequestAssistantMessageContent::Text(t.to_string())),
        name: None,
        audio: None,
        refusal: None,
        tool_calls: None,
        function_call: None,
    })
}

#[test]
fn conversation_order() {
    let history = vec![("q1".to_string(), "a1".to_string()), ("q2".to_string(), "a2".to_string())];
    let msgs = build_chat_messages("Be kind".to_string(), history, "now".to_string());
    let expected = vec![
        ChatCompletionRequestMessage::System(ChatCompletionRequestSystemMessage {
            content: ChatCompletionRequestSystemMessageContent::Text("Be kind".to_string()),
            name: None,
        }),
        user("q1"),
        assistant("a1"),
        user("q2"),
        assistant("a2"),
        user("now"),
    ];
    assert_eq!(msgs, expected);
    assert_eq!(build_chat_messages("p".to_string(), Vec::new(), "x".to_string()).len(), 2);
}

fn function_call(name: &str) -> ChatCompletionMessageToolCalls {
    ChatCompletionMessageToolCalls::Function(ChatCompletionMessageToolCall {
        id: "call_1".to_string(),
        function: FunctionCall { name: name.to_string(), arguments: "{}".to_string() },
    })
}

#[test]
fn empty_tool_calls_count_as_none() {
    assert_eq!(get_tool_calls::<u8>(Some(vec![])), None);
    assert_eq!(get_tool_calls::<u8>(None), None);
    assert_eq!(get_tool_calls(Some(vec![3u8])), Some(vec![3u8]));
}

#[test]
fn reply_with_tool_call() {
    let plan = plan_ai_reply(Some("ignored".to_string()), Some(vec![function_call("add_task")]));
    assert_eq!(plan.tool_calls, Some(vec![function_call("add_task")]));
    assert_eq!(plan.markdown, None);
    assert_eq!(plan.history_answer, Some("Tool call: add_task".to_string()));
    let custom = ChatCompletionMessageToolCalls::Custom(ChatCompletionMessageCustomToolCall {
        id: "c".to_string(),
        custom_tool: CustomTool { name: "x".to_string(), input: "y".to_string() },
    });
    let plan = plan_ai_reply(None, Some(vec![custom.clone()]));
    assert_eq!(plan.tool_calls, Some(vec![custom]));
    assert_eq!(plan.history_answer, None);
}

#[test]
fn reply_with_text() {
    let plan = plan_ai_reply(Some("Hola".to_string()), Some(vec![]));
    assert_eq!(plan.tool_calls, None);
    assert_eq!(plan.markdown, Some("Hola".to_string()));
    assert_eq!(plan.history_answer, Some("Hola".to_string()));
    let plan = plan_ai_reply(None, None);
    assert_eq!(plan.markdown, Some("Disculpa, ha habido un error interno con la IA".to_string()));
    assert_eq!(plan.history_answer, None);
}

#[test]
fn function_tool_definitions() {
    let tool = create_ai_fun(
        "add".to_string(),
        "Adds a task".to_string(),
        vec![Property::string("title", "Task title")],
    );
    let expected = ChatCompletionTools::Function(ChatCompletionTool {
        function: FunctionObject {
            name: "add".to_string(),
            description: Some("Adds a task".to_string()),
            parameters: Some(props_to_json(vec![Property::string("title", "Task title")])),
            strict: Some(true),
        },
    });
    assert_eq!(tool, expected);
    let bare = create_ai_fun("list".to_string(), "Lists".to_string(), Vec::new());
    let expected = ChatCompletionTools::Function(ChatCompletionTool {
        function: FunctionObject {
            name: "list".to_string(),
            description: Some("Lists".to_string()),
            parameters: None,
            strict: Some(false),
        },
    });
    assert_eq!(bare, expected);
}

#[test]
fn tools_offered_only_when_wanted() {
    let tools = vec![create_ai_fun("a".to_string(), "b".to_string(), Vec::new())];
    assert_eq!(tools_for_request(false, &tools), None);
    assert_eq!(tools_for_request(true, &tools), Some(tools.clone()));
}

#[test]
fn history_note_for_tool_calls() {
    assert_eq!(tool_call_history_note(Some("list".to_string())), Some("Tool call: list".to_string()));
    assert_eq!(tool_call_history_note(None), None);
}
