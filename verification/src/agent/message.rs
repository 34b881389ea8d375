//! Chat messages in the OpenAI Chat Completions shape.
//!
//! Tool arguments and parameter schemas are held as JSON text; the program
//! around the library encodes and decodes them.

use vstd::prelude::*;

verus! {

/// A tool call requested by the LLM.
#[derive(Debug, Clone)]
pub struct ToolCall {
    /// The call id, quoted back with the tool's result.
    pub id: String,
    pub name: String,
    /// The arguments, as JSON text.
    pub arguments: String,
}

/// A tool offered to the LLM.
#[derive(Debug, Clone)]
pub struct ToolSchema {
    pub name: String,
    pub description: String,
    /// The JSON Schema of the parameters, as JSON text.
    pub parameters: String,
}

/// One reply of the LLM.
#[derive(Debug, Clone)]
pub struct LlmResponse {
    /// The text (empty when only tools are called).
    pub text: String,
    /// The tools to call; none means the task is done.
    pub tool_calls: Vec<ToolCall>,
}

/// A message of the conversation.
#[derive(Debug, Clone)]
pub enum Message {
    System { content: String },
    User { content: String },
    Assistant { content: String, tool_calls: Vec<AssistantToolCall> },
    /// A tool's result, fed back to the LLM.
    Tool { tool_call_id: String, content: String },
}

/// An element of an assistant message's `tool_calls`.
#[derive(Debug, Clone)]
pub struct AssistantToolCall {
    pub id: String,
    /// Always `function`.
    pub kind: String,
    pub function: AssistantToolCallFunction,
}

/// The function of an assistant tool call.
#[derive(Debug, Clone)]
pub struct AssistantToolCallFunction {
    pub name: String,
    /// The arguments, as JSON text.
    pub arguments: String,
}

/// An assistant tool call that carries `tc`.
pub open spec fn carries(a: AssistantToolCall, tc: ToolCall) -> bool {
    &&& a.id@ == tc.id@
    &&& a.kind@ == "function"@
    &&& a.function.name@ == tc.name@
    &&& a.function.arguments@ == tc.arguments@
}

impl Message {
    /// A system message.
    pub fn system(content: String) -> (m: Self)
        ensures
            m matches Message::System { content: c } && c == content,
    {
        Message::System { content }
    }

    /// A user message.
    pub fn user(content: String) -> (m: Self)
        ensures
            m matches Message::User { content: c } && c == content,
    {
        Message::User { content }
    }

    /// An assistant message with the tool calls it requested.
    pub fn assistant(text: String, tool_calls: &[ToolCall]) -> (m: Self)
        ensures
            m matches Message::Assistant { content: c, tool_calls: tc } && c == text && tc@.len()
                == tool_calls@.len() && forall|i: int| 0 <= i < tc@.len() ==> carries(#[trigger] tc@[i], tool_calls@[i]),
    {
        let mut tc: Vec<AssistantToolCall> = Vec::new();
        let mut i: usize = 0;
        while i < tool_calls.len()
            invariant
                i <= tool_calls.len(),
                tc@.len() == i,
                forall|k: int| 0 <= k < i ==> carries(#[trigger] tc@[k], tool_calls@[k]),
            decreases tool_calls.len() - i,
        {
            let t = &tool_calls[i];
            tc.push(
                AssistantToolCall {
                    id: t.id.clone(),
                    kind: String::from_str("function"),
                    function: AssistantToolCallFunction { name: t.name.clone(), arguments: t.arguments.clone() },
                },
            );
            i = i + 1;
        }
        Message::Assistant { content: text, tool_calls: tc }
    }

    /// A tool result.
    pub fn tool(tool_call_id: String, content: String) -> (m: Self)
        ensures
            m matches Message::Tool { tool_call_id: i, content: c } && i == tool_call_id && c == content,
    {
        Message::Tool { tool_call_id, content }
    }
}

} // verus!
