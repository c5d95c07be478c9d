//! Values exchanged with an OpenAI-compatible chat completion API.

use vstd::prelude::*;
use vstd::string::StringExecFns;

verus! {

/// A JSON value of `serde_json`.
#[verifier::external_type_specification]
#[verifier::external_body]
pub struct ExJsonValue(serde_json::Value);

/// A message of a conversation.
#[derive(Clone, Debug)]
pub struct ChatMessage {
    /// "system", "user", "assistant" or "tool".
    pub role: String,
    pub content: Option<String>,
    pub tool_calls: Option<Vec<ToolCall>>,
    pub tool_call_id: Option<String>,
}

/// Whether `m` has role `role` and text `content`, and no tool data.
pub open spec fn is_text_message(m: ChatMessage, role: Seq<char>, content: Seq<char>) -> bool {
    &&& m.role@ == role
    &&& m.content matches Some(c) && c@ == content
    &&& m.tool_calls is None
    &&& m.tool_call_id is None
}

impl ChatMessage {
    /// A system message.
    pub fn system(content: &str) -> (r: ChatMessage)
        ensures
            is_text_message(r, "system"@, content@),
    {
        ChatMessage {
            role: String::from_str("system"),
            content: Some(String::from_str(content)),
            tool_calls: None,
            tool_call_id: None,
        }
    }

    /// A user message.
    pub fn user(content: &str) -> (r: ChatMessage)
        ensures
            is_text_message(r, "user"@, content@),
    {
        ChatMessage {
            role: String::from_str("user"),
            content: Some(String::from_str(content)),
            tool_calls: None,
            tool_call_id: None,
        }
    }

    /// An assistant message.
    pub fn assistant(content: &str) -> (r: ChatMessage)
        ensures
            is_text_message(r, "assistant"@, content@),
    {
        ChatMessage {
            role: String::from_str("assistant"),
            content: Some(String::from_str(content)),
            tool_calls: None,
            tool_call_id: None,
        }
    }

    /// An assistant message that calls tools.
    pub fn assistant_with_tool_calls(tool_calls: Vec<ToolCall>) -> (r: ChatMessage)
        ensures
            r.role@ == "assistant"@,
            r.content is None,
            r.tool_calls == Some(tool_calls),
            r.tool_call_id is None,
    {
        ChatMessage {
            role: String::from_str("assistant"),
            content: None,
            tool_calls: Some(tool_calls),
            tool_call_id: None,
        }
    }

    /// The answer of a tool to the call `tool_call_id`.
    pub fn tool_response(tool_call_id: &str, content: &str) -> (r: ChatMessage)
        ensures
            r.role@ == "tool"@,
            r.content matches Some(c) && c@ == content@,
            r.tool_calls is None,
            r.tool_call_id matches Some(i) && i@ == tool_call_id@,
    {
        ChatMessage {
            role: String::from_str("tool"),
            content: Some(String::from_str(content)),
            tool_calls: None,
            tool_call_id: Some(String::from_str(tool_call_id)),
        }
    }
}

/// A tool the model may call.
#[derive(Clone, Debug)]
pub struct ToolDefinition {
    /// Always "function".
    pub tool_type: String,
    pub function: FunctionDefinition,
}

impl ToolDefinition {
    /// A function tool.
    pub fn function(definition: FunctionDefinition) -> (r: ToolDefinition)
        ensures
            r.tool_type@ == "function"@,
            r.function == definition,
    {
        ToolDefinition { tool_type: String::from_str("function"), function: definition }
    }
}

/// Name, description and JSON-schema parameters of a function tool.
#[derive(Clone, Debug)]
pub struct FunctionDefinition {
    pub name: String,
    pub description: String,
    pub parameters: Option<serde_json::Value>,
}

impl FunctionDefinition {
    /// A function without a parameter schema.
    pub fn new(name: &str, description: &str) -> (r: FunctionDefinition)
        ensures
            r.name@ == name@,
            r.description@ == description@,
            r.parameters is None,
    {
        FunctionDefinition {
            name: String::from_str(name),
            description: String::from_str(description),
            parameters: None,
        }
    }

    /// The same function with a parameter schema.
    pub fn with_parameters(self, parameters: serde_json::Value) -> (r: FunctionDefinition)
        ensures
            r.name == self.name,
            r.description == self.description,
            r.parameters == Some(parameters),
    {
        FunctionDefinition { name: self.name, description: self.description, parameters: Some(parameters) }
    }
}

/// A tool call made by the model.
#[derive(Clone, Debug)]
pub struct ToolCall {
    pub id: String,
    /// Always "function".
    pub call_type: String,
    pub function: FunctionCall,
}

impl ToolCall {
    /// A function call with the given id.
    pub fn new(id: &str, function: FunctionCall) -> (r: ToolCall)
        ensures
            r.id@ == id@,
            r.call_type@ == "function"@,
            r.function == function,
    {
        ToolCall { id: String::from_str(id), call_type: String::from_str("function"), function }
    }
}

/// The function a tool call names and its JSON-encoded arguments.
#[derive(Clone, Debug)]
pub struct FunctionCall {
    pub name: String,
    pub arguments: String,
}

impl FunctionCall {
    /// A call of `name` with JSON `arguments`.
    pub fn new(name: &str, arguments: &str) -> (r: FunctionCall)
        ensures
            r.name@ == name@,
            r.arguments@ == arguments@,
    {
        FunctionCall { name: String::from_str(name), arguments: String::from_str(arguments) }
    }
}

/// A chat completion request.
#[derive(Clone, Debug)]
pub struct ChatCompletionRequest {
    pub model: String,
    pub messages: Vec<ChatMessage>,
    pub tools: Option<Vec<ToolDefinition>>,
    /// How the model may use the tools: "auto" lets it choose.
    pub tool_choice: Option<String>,
    pub max_tokens: Option<u32>,
}

impl ChatCompletionRequest {
    /// A request for `model` with `messages` and no options.
    pub fn new(model: &str, messages: Vec<ChatMessage>) -> (r: ChatCompletionRequest)
        ensures
            r.model@ == model@,
            r.messages == messages,
            r.tools is None,
            r.tool_choice is None,
            r.max_tokens is None,
    {
        ChatCompletionRequest {
            model: String::from_str(model),
            messages,
            tools: None,
            tool_choice: None,
            max_tokens: None,
        }
    }

    /// The same request offering `tools`, with tool choice "auto".
    pub fn with_tools(self, tools: Vec<ToolDefinition>) -> (r: ChatCompletionRequest)
        ensures
            r.model == self.model,
            r.messages == self.messages,
            r.tools == Some(tools),
            r.tool_choice matches Some(c) && c@ == "auto"@,
            r.max_tokens == self.max_tokens,
    {
        ChatCompletionRequest {
            model: self.model,
            messages: self.messages,
            tools: Some(tools),
            tool_choice: Some(String::from_str("auto")),
            max_tokens: self.max_tokens,
        }
    }

    /// The same request with a token limit.
    pub fn with_max_tokens(self, max_tokens: u32) -> (r: ChatCompletionRequest)
        ensures
            r.model == self.model,
            r.messages == self.messages,
            r.tools == self.tools,
            r.tool_choice == self.tool_choice,
            r.max_tokens == Some(max_tokens),
    {
        ChatCompletionRequest {
            model: self.model,
            messages: self.messages,
            tools: self.tools,
            tool_choice: self.tool_choice,
            max_tokens: Some(max_tokens),
        }
    }
}

/// One choice of a completion.
#[derive(Clone, Debug)]
pub struct ChatChoice {
    pub index: u32,
    pub message: ChatMessage,
    pub finish_reason: Option<String>,
}

/// Token usage of a completion.
#[derive(Clone, Copy, Debug, PartialEq, Eq, Structural)]
pub struct Usage {
    pub prompt_tokens: u64,
    pub completion_tokens: u64,
    pub total_tokens: u64,
}

/// A chat completion response.
#[derive(Clone, Debug)]
pub struct ChatCompletionResponse {
    pub id: String,
    pub object: String,
    pub created: u64,
    pub model: String,
    pub choices: Vec<ChatChoice>,
    pub usage: Option<Usage>,
}

/// Whether the first choice of `r` calls at least one tool.
pub open spec fn first_tool_call_exists(r: ChatCompletionResponse) -> bool {
    &&& r.choices@.len() > 0
    &&& r.choices@[0].message.tool_calls matches Some(calls) && calls@.len() > 0
}

impl ChatCompletionResponse {
    /// The first choice, if any.
    pub fn first_choice(&self) -> (r: Option<&ChatChoice>)
        ensures
            self.choices@.len() == 0 ==> r is None,
            self.choices@.len() > 0 ==> r == Some(&self.choices@[0]),
    {
        if self.choices.len() == 0 {
            None
        } else {
            Some(&self.choices[0])
        }
    }

    /// The message of the first choice, if any.
    pub fn first_message(&self) -> (r: Option<&ChatMessage>)
        ensures
            self.choices@.len() == 0 ==> r is None,
            self.choices@.len() > 0 ==> r == Some(&self.choices@[0].message),
    {
        if self.choices.len() == 0 {
            None
        } else {
            Some(&self.choices[0].message)
        }
    }

    /// The tool calls of the first choice, if any.
    pub fn tool_calls(&self) -> (r: Option<&Vec<ToolCall>>)
        ensures
            self.choices@.len() == 0 ==> r is None,
            self.choices@.len() > 0 ==> match self.choices@[0].message.tool_calls {
                Some(calls) => r == Some(&calls),
                None => r is None,
            },
    {
        if self.choices.len() == 0 {
            None
        } else {
            match &self.choices[0].message.tool_calls {
                Some(calls) => Some(calls),
                None => None,
            }
        }
    }

    /// The first tool call of the first choice, if any.
    pub fn first_tool_call(&self) -> (r: Option<&ToolCall>)
        ensures
            r is Some <==> first_tool_call_exists(*self),
            r matches Some(c) ==> (self.choices@[0].message.tool_calls matches Some(calls) && c == &calls@[0]),
    {
        match self.tool_calls() {
            Some(calls) => {
                if calls.len() == 0 {
                    None
                } else {
                    Some(&calls[0])
                }
            },
            None => None,
        }
    }
}

} // verus!
