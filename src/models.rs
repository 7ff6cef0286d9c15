//! Records exchanged with the chat front door and kept about the agent's
//! settings and stored API keys. Times are Unix timestamps in seconds.

use crate::message::{Message, Role};
use crate::text::str_eq;
use vstd::prelude::*;

verus! {

/// One message of a chat request or response.
#[derive(Clone, Debug)]
pub struct ChatMessage {
    pub role: String,
    pub content: String,
}

/// A chat request: the conversation so far.
#[derive(Clone, Debug)]
pub struct ChatRequest {
    pub messages: Vec<ChatMessage>,
}

/// The answer to a chat request.
#[derive(Debug)]
pub struct ChatResponse {
    pub success: bool,
    pub message: Option<ChatMessage>,
    pub error: Option<String>,
}

/// The role a chat message names: "system" and "assistant" are kept, any
/// other is the user.
pub open spec fn chat_role(role: Seq<char>) -> Role {
    if role == "system"@ {
        Role::System
    } else if role == "assistant"@ {
        Role::Assistant
    } else {
        Role::User
    }
}

/// The system message used when a chat brings none.
pub open spec fn default_chat_prompt() -> Seq<char> {
    "You are StarkBot, a helpful AI assistant. Be concise and helpful."@
}

/// `m` is a plain message with this role and text.
pub open spec fn is_text_message(m: Message, role: Role, content: Seq<char>) -> bool {
    &&& m.role == role
    &&& m.content matches Some(c) && c@ == content
    &&& m.tool_calls is None
    &&& m.tool_call_id is None
    &&& m.name is None
}

/// Turns a chat into conversation messages, in order, led by the default
/// system message when the chat has no system message of its own.
pub fn prepare_chat_messages(messages: &Vec<ChatMessage>) -> (r: Vec<Message>)
    ensures
        ({
            let has_system = exists|i: int|
                0 <= i < messages@.len() && chat_role(#[trigger] messages@[i].role@) == Role::System;
            let offset: int = if has_system {
                0
            } else {
                1
            };
            &&& r@.len() == messages@.len() + offset
            &&& !has_system ==> is_text_message(r@[0], Role::System, default_chat_prompt())
            &&& forall|i: int|
                0 <= i < messages@.len() ==> is_text_message(
                    #[trigger] r@[i + offset],
                    chat_role(messages@[i].role@),
                    messages@[i].content@,
                )
        }),
{
    let mut has_system = false;
    let mut i: usize = 0;
    while i < messages.len()
        invariant
            i <= messages@.len(),
            has_system == exists|k: int| 0 <= k < i && chat_role(#[trigger] messages@[k].role@) == Role::System,
        decreases messages@.len() - i,
    {
        if role_of(messages[i].role.as_str()) == Role::System {
            has_system = true;
        }
        i = i + 1;
    }
    let offset: usize = if has_system {
        0
    } else {
        1
    };
    let mut r: Vec<Message> = Vec::new();
    if !has_system {
        r.push(Message::text(Role::System, String::from_str("You are StarkBot, a helpful AI assistant. Be concise and helpful.")));
    }
    let mut k: usize = 0;
    while k < messages.len()
        invariant
            k <= messages@.len(),
            offset == (if has_system { 0usize } else { 1usize }),
            r@.len() == k + offset,
            !has_system ==> is_text_message(r@[0], Role::System, default_chat_prompt()),
            forall|j: int|
                0 <= j < k ==> is_text_message(
                    #[trigger] r@[j + offset],
                    chat_role(messages@[j].role@),
                    messages@[j].content@,
                ),
        decreases messages@.len() - k,
    {
        let m = &messages[k];
        r.push(Message::text(role_of(m.role.as_str()), m.content.clone()));
        k = k + 1;
    }
    r
}

fn role_of(role: &str) -> (r: Role)
    ensures
        r == chat_role(role@),
{
    if str_eq(role, "system") {
        Role::System
    } else if str_eq(role, "assistant") {
        Role::Assistant
    } else {
        Role::User
    }
}

/// A request to change the agent's settings.
#[derive(Clone, Debug)]
pub struct UpdateAgentSettingsRequest {
    pub endpoint: String,
    pub model_archetype: String,
    pub max_tokens: i32,
}

/// The model archetype used when a request names none.
pub fn default_archetype() -> (r: String)
    ensures
        r@ == "kimi"@,
{
    String::from_str("kimi")
}

/// The token limit used when a request names none.
pub fn default_max_tokens() -> (r: i32)
    ensures
        r == 40000,
{
    40000
}

/// The agent's settings as stored.
#[derive(Clone, Debug)]
pub struct AgentSettings {
    pub id: i64,
    pub endpoint: String,
    pub model_archetype: String,
    pub max_tokens: i32,
    pub enabled: bool,
    pub created_at: i64,
    pub updated_at: i64,
}

/// The agent's settings as shown to clients.
#[derive(Clone, Debug)]
pub struct AgentSettingsResponse {
    pub id: i64,
    pub endpoint: String,
    pub model_archetype: String,
    pub max_tokens: i32,
    pub enabled: bool,
    pub created_at: i64,
    pub updated_at: i64,
}

impl From<AgentSettings> for AgentSettingsResponse {
    fn from(s: AgentSettings) -> (r: AgentSettingsResponse) {
        AgentSettingsResponse {
            id: s.id,
            endpoint: s.endpoint,
            model_archetype: s.model_archetype,
            max_tokens: s.max_tokens,
            enabled: s.enabled,
            created_at: s.created_at,
            updated_at: s.updated_at,
        }
    }
}

impl vstd::std_specs::convert::FromSpecImpl<AgentSettings> for AgentSettingsResponse {
    open spec fn obeys_from_spec() -> bool {
        true
    }

    open spec fn from_spec(s: AgentSettings) -> AgentSettingsResponse {
        AgentSettingsResponse {
            id: s.id,
            endpoint: s.endpoint,
            model_archetype: s.model_archetype,
            max_tokens: s.max_tokens,
            enabled: s.enabled,
            created_at: s.created_at,
            updated_at: s.updated_at,
        }
    }
}

/// A stored key for an outside service.
#[derive(Clone, Debug)]
pub struct ApiKey {
    pub id: i64,
    pub service_name: String,
    pub api_key: String,
    pub created_at: i64,
    pub updated_at: i64,
}

/// A stored key as shown to clients: only a masked preview of the key.
#[derive(Clone, Debug)]
pub struct ApiKeyResponse {
    pub id: i64,
    pub service_name: String,
    pub key_preview: String,
    pub created_at: i64,
    pub updated_at: i64,
}

/// The masked form of a key: its first and last four characters around
/// "..." when it is longer than twelve, else "****".
pub open spec fn key_preview(key: Seq<char>) -> Seq<char> {
    if key.len() > 12 {
        key.subrange(0, 4) + "..."@ + key.subrange(key.len() - 4, key.len() as int)
    } else {
        "****"@
    }
}

impl ApiKeyResponse {
    /// The client view of a stored key, with the key masked.
    pub fn from(key: ApiKey) -> (r: ApiKeyResponse)
        ensures
            r.id == key.id,
            r.service_name == key.service_name,
            r.key_preview@ == key_preview(key.api_key@),
            r.created_at == key.created_at,
            r.updated_at == key.updated_at,
    {
        let key_preview = preview_key(key.api_key.as_str());
        ApiKeyResponse {
            id: key.id,
            service_name: key.service_name,
            key_preview,
            created_at: key.created_at,
            updated_at: key.updated_at,
        }
    }
}

/// Masks a key for display.
pub fn preview_key(key: &str) -> (r: String)
    ensures
        r@ == key_preview(key@),
{
    let n = key.unicode_len();
    if n > 12 {
        let mut r = String::from_str(key.substring_char(0, 4));
        r.append("...");
        r.append(key.substring_char(n - 4, n));
        r
    } else {
        String::from_str("****")
    }
}

} // verus!
