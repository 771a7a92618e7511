//! The completion envelope: request and response types and the pure
//! assembly of a response from generated text and token estimates.

use vstd::prelude::*;
use vstd::string::StringExecFns;
use crate::msg::Message;
use crate::msg::Role;
use crate::tokens::estimate_tokens;
use crate::tokens::spec_estimate_tokens;

verus! {

/// A chat-completion request, already parsed into plain values: the
/// echoed model name, the ordered conversation, and the number of
/// generated units to request. The conversation may be empty.
pub struct ChatRequest {
    pub model: String,
    pub messages: Vec<Message>,
    pub max_tokens: u32,
}

/// The usage block of a response: heuristic token estimates for
/// reporting only.
pub struct Usage {
    pub prompt_tokens: u32,
    pub completion_tokens: u32,
    pub total_tokens: u32,
}

/// One completion choice: the assistant's message and a finish reason.
pub struct Choice {
    pub index: u32,
    pub message: Message,
    pub finish_reason: String,
}

/// The completion envelope returned on success, constructed fresh per
/// request and never cached.
pub struct ChatResponse {
    pub id: String,
    pub object: String,
    pub created: u64,
    pub model: String,
    pub choices: Vec<Choice>,
    pub usage: Usage,
}

/// Relies on uuid::Uuid::new_v4 and its display form: a fresh random
/// identifier in the hyphenated format, which is always 36 characters.
/// Nothing is assumed of which identifier comes back.
#[verifier::external_body]
fn fresh_request_id() -> (r: String)
    ensures
        r@.len() == 36,
{
    uuid::Uuid::new_v4().to_string()
}

/// Relies on chrono::Utc::now and DateTime::timestamp: the current Unix
/// time in seconds, cast to an unsigned value. Nothing is assumed of
/// the clock's reading.
#[verifier::external_body]
fn now_unix() -> u64 {
    chrono::Utc::now().timestamp() as u64
}

/// The usage block for a prompt and a completion: each side estimated
/// by the token heuristic, the total their sum.
pub fn build_usage(prompt: &str, completion: &str) -> (r: Usage)
    requires
        prompt@.len() / 4 + completion@.len() / 4 <= u32::MAX,
    ensures
        r.prompt_tokens == spec_estimate_tokens(prompt@.len()),
        r.completion_tokens == spec_estimate_tokens(completion@.len()),
        r.total_tokens == r.prompt_tokens + r.completion_tokens,
{
    let prompt_tokens = estimate_tokens(prompt);
    let completion_tokens = estimate_tokens(completion);
    Usage { prompt_tokens, completion_tokens, total_tokens: prompt_tokens + completion_tokens }
}

/// Assemble the completion envelope: a fresh `chatcmpl-` identifier, the
/// fixed object tag, the current timestamp, the echoed model name, one
/// choice carrying the generated text as an assistant message with the
/// fixed finish reason, and the given usage block.
pub fn assemble_response(model: String, content: String, usage: Usage) -> (r: ChatResponse)
    ensures
        r.id@.len() == 45,
        r.id@.take(9) == "chatcmpl-"@,
        r.object@ == "chat.completion"@,
        r.model == model,
        r.choices@.len() == 1,
        r.choices@[0].index == 0,
        (r.choices@[0].message.role matches Role::Assistant),
        r.choices@[0].message.content == content,
        r.choices@[0].finish_reason@ == "stop"@,
        r.usage == usage,
{
    let tail = fresh_request_id();
    let id = String::from_str("chatcmpl-").concat(tail.as_str());
    proof {
        reveal_strlit("chatcmpl-");
        assert(id@.take(9) =~= "chatcmpl-"@);
    }
    let mut choices: Vec<Choice> = Vec::new();
    choices.push(
        Choice {
            index: 0,
            message: Message { role: Role::Assistant, content },
            finish_reason: String::from_str("stop"),
        },
    );
    ChatResponse {
        id,
        object: String::from_str("chat.completion"),
        created: now_unix(),
        model,
        choices,
        usage,
    }
}

} // verus!
