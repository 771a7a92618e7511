//! The inference dispatcher: the decisions of one request's passage
//! through the gateway — admission, template lookup, prompt building,
//! the exclusive model phase, and the mapping of every failure to its
//! error — together with the guarantee that both resources are released
//! on every exit path.
//!
//! The engine itself is an outside collaborator: the caller performs the
//! generation and hands its outcome in as a plain value, and every
//! decision about that outcome is verified here.

use vstd::prelude::*;
use vstd::string::StringExecFns;
use crate::gate::GatewayResources;
use crate::msg::build_prompt;
use crate::msg::spec_prompt_with_system;
use crate::msg::Message;
use crate::respond::assemble_response;
use crate::respond::build_usage;
use crate::respond::ChatRequest;
use crate::respond::ChatResponse;
use crate::tokens::spec_estimate_tokens;

verus! {

/// What the prompt-template lookup produced: no template was named, the
/// named template's text, or the name that had no template.
pub enum TemplateOutcome {
    NotRequested,
    Found(String),
    Missing(String),
}

/// What one engine invocation produced: the generated text, or the
/// failure of one of its three stages, each with its cause.
pub enum EngineOutcome {
    Completed(String),
    SessionFailed(String),
    ContextFailed(String),
    SamplingFailed(String),
}

/// The request-scoped error taxonomy of the gateway.
#[derive(Debug)]
pub enum GatewayError {
    Overload,
    ModelUnavailable,
    PromptTemplateNotFound(String),
    Engine(String),
}

/// The HTTP status reported for an error.
pub open spec fn spec_status_of(e: GatewayError) -> u16 {
    match e {
        GatewayError::Overload => 503u16,
        GatewayError::ModelUnavailable => 503u16,
        GatewayError::PromptTemplateNotFound(_) => 404u16,
        GatewayError::Engine(_) => 500u16,
    }
}

/// Map an error to the HTTP status its response carries.
pub fn status_of(e: &GatewayError) -> (r: u16)
    ensures
        r == spec_status_of(*e),
{
    match e {
        GatewayError::Overload => 503,
        GatewayError::ModelUnavailable => 503,
        GatewayError::PromptTemplateNotFound(_) => 404,
        GatewayError::Engine(_) => 500,
    }
}

/// The message carried in an error response's body.
pub open spec fn spec_error_message(e: GatewayError) -> Seq<char> {
    match e {
        GatewayError::Overload => "Server is currently overloaded"@,
        GatewayError::ModelUnavailable => "Model not loaded on server. Check server logs for model load errors or set ALLOW_PLACEHOLDER=true to enable fallback responses for development."@,
        GatewayError::PromptTemplateNotFound(name) => "Prompt template "@ + name@ + " not found"@,
        GatewayError::Engine(cause) => "Inference failed: "@ + cause@,
    }
}

/// Render an error's response-body message. Engine causes are carried
/// behind a generic failure prefix.
pub fn error_message(e: &GatewayError) -> (r: String)
    ensures
        r@ == spec_error_message(*e),
{
    match e {
        GatewayError::Overload => String::from_str("Server is currently overloaded"),
        GatewayError::ModelUnavailable => String::from_str(
            "Model not loaded on server. Check server logs for model load errors or set ALLOW_PLACEHOLDER=true to enable fallback responses for development.",
        ),
        GatewayError::PromptTemplateNotFound(name) => String::from_str("Prompt template ")
            .concat(name.as_str())
            .concat(" not found"),
        GatewayError::Engine(cause) => String::from_str("Inference failed: ").concat(
            cause.as_str(),
        ),
    }
}

/// The fixed marker appended to the echoed prompt in placeholder mode.
pub open spec fn spec_placeholder(prompt: Seq<char>) -> Seq<char> {
    prompt + "\n\n[generated placeholder]"@
}

/// The clearly-marked synthetic output substituted when no model is
/// loaded but placeholders are allowed: the prompt plus a fixed marker.
pub fn placeholder_completion(prompt: &str) -> (r: String)
    ensures
        r@ == spec_placeholder(prompt@),
{
    String::from_str(prompt).concat("\n\n[generated placeholder]")
}

/// The completion decision when the model is absent: the marked
/// placeholder when placeholders are allowed, the unavailable error
/// otherwise. The engine is never consulted.
pub fn unloaded_completion(allow_placeholder: bool, prompt: &str) -> (r: Result<
    String,
    GatewayError,
>)
    ensures
        allow_placeholder ==> (r matches Ok(t) && t@ == spec_placeholder(prompt@)),
        !allow_placeholder ==> (r matches Err(e) && e matches GatewayError::ModelUnavailable),
{
    if allow_placeholder {
        Ok(placeholder_completion(prompt))
    } else {
        Err(GatewayError::ModelUnavailable)
    }
}

/// Map an engine invocation's outcome to the request's result: the
/// generated text on success, and each stage failure to an engine error
/// whose cause names the stage that failed.
pub fn engine_completion(engine: EngineOutcome) -> (r: Result<String, GatewayError>)
    ensures
        (match engine {
            EngineOutcome::Completed(t) => r matches Ok(out) && out == t,
            EngineOutcome::SessionFailed(c) => r matches Err(e) && (e matches GatewayError::Engine(
                m,
            ) && m@ == "Failed to create session: "@ + c@),
            EngineOutcome::ContextFailed(c) => r matches Err(e) && (e matches GatewayError::Engine(
                m,
            ) && m@ == "Failed to advance context: "@ + c@),
            EngineOutcome::SamplingFailed(c) => r matches Err(e) && (e
                matches GatewayError::Engine(m) && m == c),
        }),
{
    match engine {
        EngineOutcome::Completed(t) => Ok(t),
        EngineOutcome::SessionFailed(c) => Err(
            GatewayError::Engine(String::from_str("Failed to create session: ").concat(c.as_str())),
        ),
        EngineOutcome::ContextFailed(c) => Err(
            GatewayError::Engine(String::from_str("Failed to advance context: ").concat(c.as_str())),
        ),
        EngineOutcome::SamplingFailed(c) => Err(GatewayError::Engine(c)),
    }
}

/// The model phase of one request, run while the model lock is held:
/// when the model is absent the engine is never consulted and the
/// placeholder policy decides; when it is loaded the engine's outcome
/// decides.
pub fn complete_inference(
    loaded: bool,
    allow_placeholder: bool,
    prompt: &str,
    engine: EngineOutcome,
) -> (r: Result<String, GatewayError>)
    ensures
        !loaded && allow_placeholder ==> (r matches Ok(t) && t@ == spec_placeholder(prompt@)),
        !loaded && !allow_placeholder ==> (r matches Err(e) && e
            matches GatewayError::ModelUnavailable),
        loaded ==> (match engine {
            EngineOutcome::Completed(t) => r matches Ok(out) && out == t,
            EngineOutcome::SessionFailed(c) => r matches Err(e) && (e matches GatewayError::Engine(
                m,
            ) && m@ == "Failed to create session: "@ + c@),
            EngineOutcome::ContextFailed(c) => r matches Err(e) && (e matches GatewayError::Engine(
                m,
            ) && m@ == "Failed to advance context: "@ + c@),
            EngineOutcome::SamplingFailed(c) => r matches Err(e) && (e
                matches GatewayError::Engine(m) && m == c),
        }),
{
    if !loaded {
        unloaded_completion(allow_placeholder, prompt)
    } else {
        engine_completion(engine)
    }
}

/// The template text a lookup outcome supplies for the prompt.
pub open spec fn spec_template_text(t: TemplateOutcome) -> Seq<char> {
    match t {
        TemplateOutcome::Found(s) => s@,
        _ => Seq::empty(),
    }
}

/// The full prompt a request and template lookup produce.
pub open spec fn spec_request_prompt(messages: Seq<Message>, template: TemplateOutcome) -> Seq<
    char,
> {
    spec_prompt_with_system(messages, spec_template_text(template))
}

/// One request's complete passage through the gateway, from the
/// admission attempt to the response or error. The engine's outcome is
/// handed in as the event of the model phase and is consulted only when
/// the model is loaded. Both resources — the admission unit and the
/// model lock — are released on every exit path: the resource state
/// after the call equals the state before it.
pub fn handle_chat_request(
    res: &mut GatewayResources,
    req: ChatRequest,
    template: TemplateOutcome,
    loaded: bool,
    allow_placeholder: bool,
    engine: EngineOutcome,
) -> (r: Result<ChatResponse, GatewayError>)
    requires
        old(res).wf(),
        old(res).generating == 0,
        spec_request_prompt(req.messages@, template).len() <= 0x7FFFFFFF,
        (engine matches EngineOutcome::Completed(t) ==> t@.len() <= 0x7FFFFFFF),
    ensures
        final(res).wf(),
        *final(res) == *old(res),
        (r matches Err(e) && e matches GatewayError::Overload) <==> old(res).in_flight
            >= old(res).capacity,
        old(res).in_flight < old(res).capacity ==> {
            &&& (template matches TemplateOutcome::Missing(name) ==> (r matches Err(e) && (e
                matches GatewayError::PromptTemplateNotFound(n) && n == name)))
            &&& !(template matches TemplateOutcome::Missing(_)) ==> {
                &&& !loaded && !allow_placeholder ==> (r matches Err(e) && e
                    matches GatewayError::ModelUnavailable)
                &&& !loaded && allow_placeholder ==> (r matches Ok(resp)
                    && resp.choices@[0].message.content@ == spec_placeholder(
                    spec_request_prompt(req.messages@, template),
                ))
                &&& loaded ==> (match engine {
                    EngineOutcome::Completed(t) => r matches Ok(resp)
                        && resp.choices@[0].message.content == t,
                    EngineOutcome::SessionFailed(c) => r matches Err(e) && (e
                        matches GatewayError::Engine(m) && m@ == "Failed to create session: "@
                        + c@),
                    EngineOutcome::ContextFailed(c) => r matches Err(e) && (e
                        matches GatewayError::Engine(m) && m@ == "Failed to advance context: "@
                        + c@),
                    EngineOutcome::SamplingFailed(c) => r matches Err(e) && (e
                        matches GatewayError::Engine(m) && m == c),
                })
            }
        },
        r matches Ok(resp) ==> {
            &&& resp.model == req.model
            &&& resp.object@ == "chat.completion"@
            &&& resp.choices@.len() == 1
            &&& resp.choices@[0].index == 0
            &&& (resp.choices@[0].message.role matches crate::msg::Role::Assistant)
            &&& resp.choices@[0].finish_reason@ == "stop"@
            &&& resp.id@.len() == 45
            &&& resp.id@.take(9) == "chatcmpl-"@
            &&& resp.usage.prompt_tokens == spec_estimate_tokens(
                spec_request_prompt(req.messages@, template).len(),
            )
            &&& resp.usage.completion_tokens == spec_estimate_tokens(
                resp.choices@[0].message.content@.len(),
            )
            &&& resp.usage.total_tokens == resp.usage.prompt_tokens
                + resp.usage.completion_tokens
        },
{
    if !res.try_admit() {
        return Err(GatewayError::Overload);
    }
    let system_prompt: String = match template {
        TemplateOutcome::Missing(name) => {
            res.release_admission();
            return Err(GatewayError::PromptTemplateNotFound(name));
        },
        TemplateOutcome::Found(text) => text,
        TemplateOutcome::NotRequested => String::new(),
    };
    let prompt = build_prompt(req.messages, system_prompt);
    let locked = res.try_begin_generation();
    assert(locked);
    let outcome = complete_inference(loaded, allow_placeholder, prompt.as_str(), engine);
    res.end_generation();
    match outcome {
        Ok(text) => {
            proof {
                reveal_strlit("\n\n[generated placeholder]");
                assert("\n\n[generated placeholder]"@.len() == 25);
            }
            let usage = build_usage(prompt.as_str(), text.as_str());
            let resp = assemble_response(req.model, text, usage);
            res.release_admission();
            Ok(resp)
        },
        Err(e) => {
            res.release_admission();
            Err(e)
        },
    }
}

} // verus!
