//! The conversation sent to the AI service and the reading of its answer:
//! the request messages, the tools offered, the tool definitions built from
//! parameter lists, and what the bot does with a reply.

use vstd::prelude::*;
use async_openai::types::chat::{
    ChatCompletionMessageToolCalls, ChatCompletionRequestAssistantMessage,
    ChatCompletionRequestAssistantMessageContent, ChatCompletionRequestMessage,
    ChatCompletionRequestSystemMessage, ChatCompletionRequestSystemMessageContent,
    ChatCompletionRequestUserMessage, ChatCompletionRequestUserMessageContent, ChatCompletionTool,
    ChatCompletionTools, FunctionObject,
};
use serde_json::Value;
use crate::property::Properties;
use crate::schema::{props_to_json, schema_spec};

verus! {

/// async-openai's `ChatCompletionRequestMessage`, held opaque.
#[verifier::external_type_specification]
#[verifier::external_body]
pub struct ExChatCompletionRequestMessage(ChatCompletionRequestMessage);

/// async-openai's `ChatCompletionMessageToolCalls`, held opaque.
#[verifier::external_type_specification]
#[verifier::external_body]
pub struct ExChatCompletionMessageToolCalls(ChatCompletionMessageToolCalls);

/// async-openai's `ChatCompletionTools`, held opaque.
#[verifier::external_type_specification]
#[verifier::external_body]
pub struct ExChatCompletionTools(ChatCompletionTools);

/// `ChatCompletionTools::clone`, the derived deep copy of a tool
/// definition: the copy equals the original.
pub assume_specification[ <ChatCompletionTools as Clone>::clone ](t: &ChatCompletionTools) -> (c: ChatCompletionTools)
    ensures
        c == *t,
;

/// The system message carrying this text.
pub uninterp spec fn system_message_of(text: Seq<char>) -> ChatCompletionRequestMessage;

/// The user message carrying this text.
pub uninterp spec fn user_message_of(text: Seq<char>) -> ChatCompletionRequestMessage;

/// The assistant message carrying this text.
pub uninterp spec fn assistant_message_of(text: Seq<char>) -> ChatCompletionRequestMessage;

/// The name of the function a tool call invokes (`None` for a custom tool).
pub uninterp spec fn tool_call_function_name(call: ChatCompletionMessageToolCalls) -> Option<Seq<char>>;

/// The function tool with this name, description, parameter schema and
/// strictness.
pub uninterp spec fn function_tool_of(
    name: Seq<char>,
    description: Option<Seq<char>>,
    parameters: Option<Value>,
    strict: Option<bool>,
) -> ChatCompletionTools;

/// `ChatCompletionRequestMessage::System` with the text as its content and
/// no name.
#[verifier::external_body]
fn system_message(text: String) -> (m: ChatCompletionRequestMessage)
    ensures
        m == system_message_of(text@),
{
    ChatCompletionRequestMessage::System(ChatCompletionRequestSystemMessage {
        content: ChatCompletionRequestSystemMessageContent::Text(text),
        name: None,
    })
}

/// `ChatCompletionRequestMessage::User` with the text as its content and no
/// name.
#[verifier::external_body]
fn user_message(text: String) -> (m: ChatCompletionRequestMessage)
    ensures
        m == user_message_of(text@),
{
    ChatCompletionRequestMessage::User(ChatCompletionRequestUserMessage {
        content: ChatCompletionRequestUserMessageContent::Text(text),
        name: None,
    })
}

/// `ChatCompletionRequestMessage::Assistant` with the text as its content
/// and every other field empty.
#[verifier::external_body]
#[allow(deprecated)]
fn assistant_message(text: String) -> (m: ChatCompletionRequestMessage)
    ensures
        m == assistant_message_of(text@),
{
    ChatCompletionRequestMessage::Assistant(ChatCompletionRequestAssistantMessage {
        content: Some(ChatCompletionRequestAssistantMessageContent::Text(text)),
        name: None,
        audio: None,
        refusal: None,
        tool_calls: None,
        function_call: None,
    })
}

/// The function name of a tool call: the `function.name` of a
/// `ChatCompletionMessageToolCalls::Function`, `None` for a custom call.
#[verifier::external_body]
fn function_name(call: &ChatCompletionMessageToolCalls) -> (n: Option<String>)
    ensures
        match n {
            Some(s) => tool_call_function_name(*call) == Some(s@),
            None => tool_call_function_name(*call) is None,
        },
{
    match call {
        ChatCompletionMessageToolCalls::Function(f) => Some(f.function.name.clone()),
        ChatCompletionMessageToolCalls::Custom(_) => None,
    }
}

/// `ChatCompletionTools::Function` of a `FunctionObject` with these fields.
#[verifier::external_body]
fn function_tool(
    name: String,
    description: Option<String>,
    parameters: Option<Value>,
    strict: Option<bool>,
) -> (t: ChatCompletionTools)
    ensures
        t == function_tool_of(
            name@,
            match description {
                Some(d) => Some(d@),
                None => None,
            },
            parameters,
            strict,
        ),
{
    ChatCompletionTools::Function(ChatCompletionTool {
        function: FunctionObject { name, description, parameters, strict },
    })
}

/// The messages of a past exchange: the user's text, then the answer.
pub open spec fn history_messages(history: Seq<(String, String)>) -> Seq<ChatCompletionRequestMessage>
    decreases history.len(),
{
    if history.len() == 0 {
        Seq::empty()
    } else {
        history_messages(history.drop_last()) + seq![
            user_message_of(history.last().0@),
            assistant_message_of(history.last().1@),
        ]
    }
}

/// The conversation sent for a new input: the system prompt, each past
/// exchange in order, then the new input.
pub open spec fn chat_messages_spec(
    prompt: Seq<char>,
    history: Seq<(String, String)>,
    input: Seq<char>,
) -> Seq<ChatCompletionRequestMessage> {
    seq![system_message_of(prompt)] + history_messages(history) + seq![user_message_of(input)]
}

/// Builds the conversation sent to the AI service.
pub fn build_chat_messages(
    prompt: String,
    history: Vec<(String, String)>,
    input: String,
) -> (messages: Vec<ChatCompletionRequestMessage>)
    ensures
        messages@ == chat_messages_spec(prompt@, history@, input@),
{
    let mut messages: Vec<ChatCompletionRequestMessage> = Vec::new();
    messages.push(system_message(prompt));
    let mut i: usize = 0;
    while i < history.len()
        invariant
            i <= history.len(),
            messages@ == seq![system_message_of(prompt@)] + history_messages(history@.take(i as int)),
        decreases history.len() - i,
    {
        messages.push(user_message(history[i].0.clone()));
        messages.push(assistant_message(history[i].1.clone()));
        assert(history@.take(i + 1).drop_last() == history@.take(i as int));
        i = i + 1;
        assert(messages@ =~= seq![system_message_of(prompt@)] + history_messages(history@.take(i as int)));
    }
    assert(history@.take(history@.len() as int) == history@);
    messages.push(user_message(input));
    messages
}

/// The tools offered with a request: all of them (copied) when tools are
/// wanted, none otherwise.
pub fn tools_for_request(with_tools: bool, tools: &Vec<ChatCompletionTools>) -> (offered: Option<
    Vec<ChatCompletionTools>,
>)
    ensures
        offered is Some == with_tools,
        offered matches Some(v) ==> v@ == tools@,
{
    if with_tools {
        Some(tools.clone())
    } else {
        None
    }
}

/// The tool calls of an answer, when there is at least one.
pub open spec fn nonempty_calls<T>(calls: Option<Vec<T>>) -> Option<Vec<T>> {
    match calls {
        Some(v) => if v.len() > 0 {
            Some(v)
        } else {
            None
        },
        None => None,
    }
}

/// Keeps the tool calls of an answer only when there is at least one, so
/// that an empty list counts as no tool call.
pub fn get_tool_calls<T>(tool_calls: Option<Vec<T>>) -> (calls: Option<Vec<T>>)
    ensures
        calls == nonempty_calls(tool_calls),
{
    match tool_calls {
        Some(v) => if v.len() > 0 {
            Some(v)
        } else {
            None
        },
        None => None,
    }
}

/// What the bot does with an AI answer.
pub struct AiReplyPlan {
    /// The tool calls to run, when the answer asks for any.
    pub tool_calls: Option<Vec<ChatCompletionMessageToolCalls>>,
    /// The Markdown message to send, when the answer is text.
    pub markdown: Option<String>,
    /// The answer recorded in the conversation history, if any.
    pub history_answer: Option<String>,
}

/// The message sent when the AI answered with neither text nor tools.
pub open spec fn ai_fallback_text() -> Seq<char> {
    "Disculpa, ha habido un error interno con la IA"@
}

/// What a tool call is recorded as in the history.
pub open spec fn tool_call_note(name: Seq<char>) -> Seq<char> {
    "Tool call: "@ + name
}

pub open spec fn opt_string_view(s: Option<String>) -> Option<Seq<char>> {
    match s {
        Some(x) => Some(x@),
        None => None,
    }
}

/// What the history records for a tool call invoking this function
/// (`None`: the call is not a function call, and nothing is recorded).
pub fn tool_call_history_note(function_name: Option<String>) -> (note: Option<String>)
    ensures
        opt_string_view(note) == match opt_string_view(function_name) {
            Some(n) => Some(tool_call_note(n)),
            None => None,
        },
{
    match function_name {
        Some(name) => {
            let mut note = String::from_str("Tool call: ");
            note.append(name.as_str());
            Some(note)
        },
        None => None,
    }
}

/// Decides on an AI answer with this text and these tool calls. When it
/// calls tools, they are run and the history records the first call's
/// function name (nothing when the first call is not a function call);
/// otherwise its text is sent as Markdown (a fallback apology when it has
/// none) and recorded in the history when there is text.
pub fn plan_ai_reply(
    content: Option<String>,
    tool_calls: Option<Vec<ChatCompletionMessageToolCalls>>,
) -> (plan: AiReplyPlan)
    ensures
        match nonempty_calls(tool_calls) {
            Some(calls) => {
                &&& plan.tool_calls == Some(calls)
                &&& plan.markdown is None
                &&& opt_string_view(plan.history_answer) == match tool_call_function_name(calls@[0]) {
                    Some(n) => Some(tool_call_note(n)),
                    None => None,
                }
            },
            None => {
                &&& plan.tool_calls is None
                &&& opt_string_view(plan.markdown) == Some(
                    match content {
                        Some(c) => c@,
                        None => ai_fallback_text(),
                    },
                )
                &&& plan.history_answer == content
            },
        },
{
    match get_tool_calls(tool_calls) {
        Some(calls) => {
            let note = tool_call_history_note(function_name(&calls[0]));
            AiReplyPlan { tool_calls: Some(calls), markdown: None, history_answer: note }
        },
        None => {
            let markdown = match &content {
                Some(c) => c.clone(),
                None => String::from_str("Disculpa, ha habido un error interno con la IA"),
            };
            AiReplyPlan { tool_calls: None, markdown: Some(markdown), history_answer: content }
        },
    }
}

/// The parameter schema and strictness of a tool: a schema and strict
/// mode when it takes parameters, neither (strict mode off) otherwise.
pub open spec fn ai_fun_spec(name: Seq<char>, description: Seq<char>, params: Seq<crate::property::Property>) -> ChatCompletionTools {
    function_tool_of(
        name,
        Some(description),
        if params.len() > 0 {
            Some(schema_spec(params))
        } else {
            None
        },
        Some(params.len() > 0),
    )
}

/// The function tool offered to the AI service for a tool with this name,
/// description and parameters.
pub fn create_ai_fun(name: String, description: String, params_org: Properties) -> (tool: ChatCompletionTools)
    ensures
        tool == ai_fun_spec(name@, description@, params_org@),
{
    let has_params = params_org.len() > 0;
    let parameters = if has_params {
        Some(props_to_json(params_org))
    } else {
        None
    };
    function_tool(name, Some(description), parameters, Some(has_params))
}

/// The AI provider served by Groq.
pub struct GroqProvider;

/// The AI provider served by Venice.
#[derive(Clone)]
pub struct VeniceProvider;

/// A non-empty list of tool calls is kept exactly as it came; only a
/// missing or an empty list counts as no tool call.
pub proof fn lemma_tool_calls_kept<T>(calls: Option<Vec<T>>)
    ensures
        (calls matches Some(v) && v.len() > 0) ==> nonempty_calls(calls) == calls,
        nonempty_calls(calls) is None <==> (calls is None || calls->0.len() == 0),
{
}

/// The calls that an answer with at least one tool call hands on to be run
/// are all of its calls, in the order in which they came.
pub proof fn lemma_plan_keeps_tool_calls(
    calls: Vec<ChatCompletionMessageToolCalls>,
    plan_calls: Option<Vec<ChatCompletionMessageToolCalls>>,
)
    requires
        calls.len() > 0,
        plan_calls == nonempty_calls(Some(calls)),
    ensures
        plan_calls == Some(calls),
        plan_calls->0@ == calls@,
{
}

/// The conversation holds, in order: the system prompt; for each past
/// exchange, the user's text then the answer; and last the new input. It
/// has two messages per exchange plus two.
pub proof fn lemma_conversation_layout(prompt: Seq<char>, history: Seq<(String, String)>, input: Seq<char>)
    ensures
        chat_messages_spec(prompt, history, input).len() == 2 * history.len() + 2,
        chat_messages_spec(prompt, history, input)[0] == system_message_of(prompt),
        chat_messages_spec(prompt, history, input)[2 * history.len() as int + 1] == user_message_of(input),
        forall|i: int|
            0 <= i < history.len() ==> #[trigger] chat_messages_spec(prompt, history, input)[2 * i + 1]
                == user_message_of(history[i].0@) && chat_messages_spec(prompt, history, input)[2 * i
                + 2] == assistant_message_of(history[i].1@),
{
    lemma_history_layout(history);
}

proof fn lemma_history_layout(history: Seq<(String, String)>)
    ensures
        history_messages(history).len() == 2 * history.len(),
        forall|i: int|
            0 <= i < history.len() ==> #[trigger] history_messages(history)[2 * i] == user_message_of(
                history[i].0@,
            ) && history_messages(history)[2 * i + 1] == assistant_message_of(history[i].1@),
    decreases history.len(),
{
    if history.len() > 0 {
        let d = history.drop_last();
        lemma_history_layout(d);
        let h = history_messages(history);
        let u = user_message_of(history.last().0@);
        let a = assistant_message_of(history.last().1@);
        assert(h == history_messages(d) + seq![u, a]);
        assert forall|i: int| 0 <= i < history.len() implies #[trigger] h[2 * i] == user_message_of(
            history[i].0@,
        ) && h[2 * i + 1] == assistant_message_of(history[i].1@) by {
            if i < d.len() {
                assert(d[i] == history[i]);
                assert(h[2 * i] == history_messages(d)[2 * i]);
                assert(h[2 * i + 1] == history_messages(d)[2 * i + 1]);
            } else {
                assert(i == d.len());
                assert(h[2 * i] == u);
                assert(h[2 * i + 1] == a);
            }
        }
        assert(forall|i: int|
            0 <= i < history.len() ==> #[trigger] history_messages(history)[2 * i] == user_message_of(
                history[i].0@,
            ) && history_messages(history)[2 * i + 1] == assistant_message_of(history[i].1@));
    }
}

} // verus!
