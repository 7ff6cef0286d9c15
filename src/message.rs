//! The conversation: messages exchanged with the model and the tool calls
//! it requests.

use vstd::prelude::*;

verus! {

/// Who a message comes from.
#[derive(Clone, Copy, Debug, PartialEq, Eq, Structural)]
pub enum Role {
    System,
    User,
    Assistant,
    Tool,
}

/// One tool call that the model requested: an id that the provider
/// assigned, the tool's name and the raw argument payload.
#[derive(Clone, Debug)]
pub struct ToolCallRequest {
    pub id: String,
    pub name: String,
    pub arguments: String,
}

/// One message of the conversation.
#[derive(Clone, Debug)]
pub struct Message {
    pub role: Role,
    pub content: Option<String>,
    pub tool_calls: Option<Vec<ToolCallRequest>>,
    pub tool_call_id: Option<String>,
    pub name: Option<String>,
}

impl Message {
    /// A message with only a role and a text.
    pub fn text(role: Role, content: String) -> (r: Message)
        ensures
            r.role == role,
            r.content == Some(content),
            r.tool_calls is None,
            r.tool_call_id is None,
            r.name is None,
    {
        Message { role, content: Some(content), tool_calls: None, tool_call_id: None, name: None }
    }
}

} // verus!
