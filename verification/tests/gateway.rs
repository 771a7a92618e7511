use llm_gateway::dispatch::engine_completion;
use llm_gateway::dispatch::error_message;
use llm_gateway::dispatch::handle_chat_request;
use llm_gateway::dispatch::placeholder_completion;
use llm_gateway::dispatch::status_of;
use llm_gateway::dispatch::unloaded_completion;
use llm_gateway::dispatch::EngineOutcome;
use llm_gateway::dispatch::GatewayError;
use llm_gateway::dispatch::TemplateOutcome;
use llm_gateway::gate::gate_capacity;
use llm_gateway::gate::GatewayResources;
use llm_gateway::msg::build_prompt;
use llm_gateway::msg::format_messages_for_llama;
use llm_gateway::msg::Message;
use llm_gateway::msg::Role;
use llm_gateway::prompts::prompt_path;
use llm_gateway::prompts::template_names;
use llm_gateway::respond::build_usage;
use llm_gateway::respond::ChatRequest;
use llm_gateway::default_max_tokens;
use llm_gateway::tokens::estimate_tokens;

fn msg(role: Role, content: &str) -> Message {
    Message { role, content: content.to_string() }
}

#[test]
fn format_empty_conversation_is_bare_marker() {
    let out = format_messages_for_llama(&vec![]);
    assert_eq!(out, "<|assistant|>\n");
}

#[test]
fn format_standard_roles() {
    let out = format_messages_for_llama(&vec![
        msg(Role::System, "You are helpful."),
        msg(Role::User, "hi"),
        msg(Role::Assistant, "hello"),
    ]);
    assert_eq!(
        out,
        "<|system|>\nYou are helpful.\n<|user|>\nhi\n<|assistant|>\nhello\n<|assistant|>\n"
    );
}

#[test]
fn format_other_role_tag_is_verbatim() {
    let out = format_messages_for_llama(&vec![msg(Role::Other("tool".to_string()), "output")]);
    assert_eq!(out, "<|tool|>\noutput\n<|assistant|>\n");
}

#[test]
fn format_always_ends_with_marker() {
    let cases: Vec<Vec<Message>> = vec![
        vec![],
        vec![msg(Role::User, "")],
        vec![msg(Role::Assistant, "already"), msg(Role::User, "more")],
    ];
    for messages in cases {
        let out = format_messages_for_llama(&messages);
        assert!(out.ends_with("<|assistant|>\n"));
    }
}

#[test]
fn build_prompt_prepends_system_template() {
    let out = build_prompt(vec![msg(Role::User, "hi")], "Be brief.".to_string());
    assert_eq!(out, "<|system|>\nBe brief.\n<|user|>\nhi\n<|assistant|>\n");
}

#[test]
fn build_prompt_empty_template_changes_nothing() {
    let out = build_prompt(vec![msg(Role::User, "hi")], String::new());
    assert_eq!(out, "<|user|>\nhi\n<|assistant|>\n");
}

#[test]
fn estimate_is_floor_of_quarter_length() {
    assert_eq!(estimate_tokens(""), 0);
    assert_eq!(estimate_tokens("abc"), 0);
    assert_eq!(estimate_tokens("abcd"), 1);
    assert_eq!(estimate_tokens("abcdefg"), 1);
    assert_eq!(estimate_tokens("abcdefgh"), 2);
}

#[test]
fn estimate_counts_characters_not_bytes() {
    // five characters, six bytes
    assert_eq!(estimate_tokens("h\u{e9}llo"), 1);
}

#[test]
fn estimate_is_monotonic_on_growing_text() {
    let mut text = String::new();
    let mut last = 0;
    for _ in 0..32 {
        text.push('x');
        let e = estimate_tokens(&text);
        assert!(e >= last);
        last = e;
    }
}

#[test]
fn default_max_tokens_is_100() {
    assert_eq!(default_max_tokens(), 100);
}

#[test]
fn capacity_is_parallelism_times_factor() {
    assert_eq!(gate_capacity(1), 32);
    assert_eq!(gate_capacity(4), 128);
}

#[test]
fn admission_fails_only_when_exhausted_and_touches_nothing() {
    let mut res = GatewayResources::new(2);
    assert!(res.try_admit());
    assert!(res.try_admit());
    let before_in_flight = res.in_flight;
    let before_generating = res.generating;
    assert!(!res.try_admit());
    assert_eq!(res.in_flight, before_in_flight);
    assert_eq!(res.generating, before_generating);
    res.release_admission();
    assert!(res.try_admit());
}

#[test]
fn model_lock_is_mutually_exclusive() {
    let mut res = GatewayResources::new(4);
    assert!(res.try_admit());
    assert!(res.try_admit());
    assert!(res.try_begin_generation());
    assert!(!res.try_begin_generation());
    res.end_generation();
    assert!(res.try_begin_generation());
    assert_eq!(res.generating, 1);
}

#[test]
fn unloaded_without_placeholder_is_unavailable() {
    let r = unloaded_completion(false, "<|user|>\nhi\n<|assistant|>\n");
    match r {
        Err(GatewayError::ModelUnavailable) => {}
        _ => panic!("expected the unavailable error"),
    }
}

#[test]
fn unloaded_with_placeholder_echoes_prompt_with_marker() {
    let r = unloaded_completion(true, "<|user|>\nhi\n<|assistant|>\n");
    assert_eq!(
        r.unwrap(),
        "<|user|>\nhi\n<|assistant|>\n\n\n[generated placeholder]"
    );
}

#[test]
fn placeholder_appends_fixed_marker() {
    assert_eq!(placeholder_completion("p"), "p\n\n[generated placeholder]");
}

#[test]
fn engine_outcomes_map_to_results() {
    assert_eq!(engine_completion(EngineOutcome::Completed("out".to_string())).unwrap(), "out");
    match engine_completion(EngineOutcome::SessionFailed("boom".to_string())) {
        Err(GatewayError::Engine(m)) => assert_eq!(m, "Failed to create session: boom"),
        _ => panic!("expected an engine error"),
    }
    match engine_completion(EngineOutcome::ContextFailed("full".to_string())) {
        Err(GatewayError::Engine(m)) => assert_eq!(m, "Failed to advance context: full"),
        _ => panic!("expected an engine error"),
    }
    match engine_completion(EngineOutcome::SamplingFailed("odd".to_string())) {
        Err(GatewayError::Engine(m)) => assert_eq!(m, "odd"),
        _ => panic!("expected an engine error"),
    }
}

#[test]
fn statuses_match_the_response_table() {
    assert_eq!(status_of(&GatewayError::Overload), 503);
    assert_eq!(status_of(&GatewayError::ModelUnavailable), 503);
    assert_eq!(status_of(&GatewayError::PromptTemplateNotFound("x".to_string())), 404);
    assert_eq!(status_of(&GatewayError::Engine("e".to_string())), 500);
}

#[test]
fn error_messages_match_the_response_table() {
    assert_eq!(error_message(&GatewayError::Overload), "Server is currently overloaded");
    assert_eq!(
        error_message(&GatewayError::ModelUnavailable),
        "Model not loaded on server. Check server logs for model load errors or set ALLOW_PLACEHOLDER=true to enable fallback responses for development."
    );
    assert_eq!(
        error_message(&GatewayError::PromptTemplateNotFound("missing".to_string())),
        "Prompt template missing not found"
    );
    assert_eq!(
        error_message(&GatewayError::Engine("Failed to create session: boom".to_string())),
        "Inference failed: Failed to create session: boom"
    );
}

fn request(model: &str, messages: Vec<Message>) -> ChatRequest {
    ChatRequest { model: model.to_string(), messages, max_tokens: default_max_tokens() }
}

#[test]
fn overloaded_gateway_rejects_without_touching_the_lock() {
    let mut res = GatewayResources::new(0);
    let r = handle_chat_request(
        &mut res,
        request("x", vec![msg(Role::User, "hi")]),
        TemplateOutcome::NotRequested,
        true,
        false,
        EngineOutcome::Completed("out".to_string()),
    );
    match r {
        Err(GatewayError::Overload) => {}
        _ => panic!("expected the overload error"),
    }
    assert_eq!(res.in_flight, 0);
    assert_eq!(res.generating, 0);
}

#[test]
fn placeholder_end_to_end_scenario() {
    let mut res = GatewayResources::new(32);
    let r = handle_chat_request(
        &mut res,
        request("x", vec![msg(Role::User, "hi")]),
        TemplateOutcome::NotRequested,
        false,
        true,
        EngineOutcome::Completed("ignored".to_string()),
    );
    let resp = r.unwrap();
    assert_eq!(
        resp.choices[0].message.content,
        "<|user|>\nhi\n<|assistant|>\n\n\n[generated placeholder]"
    );
    assert_eq!(resp.choices[0].finish_reason, "stop");
    assert_eq!(resp.choices[0].index, 0);
    assert!(matches!(resp.choices[0].message.role, Role::Assistant));
    assert_eq!(resp.model, "x");
    assert_eq!(resp.object, "chat.completion");
    assert_eq!(resp.id.len(), 45);
    assert!(resp.id.starts_with("chatcmpl-"));
    // prompt is 26 characters, completion 51
    assert_eq!(resp.usage.prompt_tokens, 6);
    assert_eq!(resp.usage.completion_tokens, 12);
    assert_eq!(resp.usage.total_tokens, 18);
    assert_eq!(res.in_flight, 0);
    assert_eq!(res.generating, 0);
}

#[test]
fn unavailable_end_to_end_when_placeholders_disallowed() {
    let mut res = GatewayResources::new(32);
    let r = handle_chat_request(
        &mut res,
        request("x", vec![msg(Role::User, "hi")]),
        TemplateOutcome::NotRequested,
        false,
        false,
        EngineOutcome::Completed("ignored".to_string()),
    );
    match r {
        Err(GatewayError::ModelUnavailable) => {}
        _ => panic!("expected the unavailable error"),
    }
    assert_eq!(res.in_flight, 0);
    assert_eq!(res.generating, 0);
}

#[test]
fn loaded_engine_text_is_returned_with_usage() {
    let mut res = GatewayResources::new(32);
    let r = handle_chat_request(
        &mut res,
        request("m", vec![msg(Role::User, "hi")]),
        TemplateOutcome::NotRequested,
        true,
        false,
        EngineOutcome::Completed("four".to_string()),
    );
    let resp = r.unwrap();
    assert_eq!(resp.choices[0].message.content, "four");
    assert_eq!(resp.usage.prompt_tokens, 6);
    assert_eq!(resp.usage.completion_tokens, 1);
    assert_eq!(resp.usage.total_tokens, 7);
    assert_eq!(res.in_flight, 0);
    assert_eq!(res.generating, 0);
}

#[test]
fn engine_failure_is_surfaced_and_resources_released() {
    let mut res = GatewayResources::new(32);
    let r = handle_chat_request(
        &mut res,
        request("m", vec![msg(Role::User, "hi")]),
        TemplateOutcome::NotRequested,
        true,
        false,
        EngineOutcome::SessionFailed("boom".to_string()),
    );
    match r {
        Err(e) => {
            assert_eq!(status_of(&e), 500);
            assert_eq!(error_message(&e), "Inference failed: Failed to create session: boom");
        }
        Ok(_) => panic!("expected an engine error"),
    }
    assert_eq!(res.in_flight, 0);
    assert_eq!(res.generating, 0);
}

#[test]
fn missing_template_is_not_found_and_resources_untouched() {
    let mut res = GatewayResources::new(32);
    let r = handle_chat_request(
        &mut res,
        request("x", vec![msg(Role::User, "hi")]),
        TemplateOutcome::Missing("missing".to_string()),
        false,
        true,
        EngineOutcome::Completed("ignored".to_string()),
    );
    match r {
        Err(e) => {
            assert_eq!(status_of(&e), 404);
            assert_eq!(error_message(&e), "Prompt template missing not found");
        }
        Ok(_) => panic!("expected the not-found error"),
    }
    assert_eq!(res.in_flight, 0);
    assert_eq!(res.generating, 0);
}

#[test]
fn found_template_is_prepended_as_system_prompt() {
    let mut res = GatewayResources::new(32);
    let r = handle_chat_request(
        &mut res,
        request("x", vec![msg(Role::User, "hi")]),
        TemplateOutcome::Found("Be brief.".to_string()),
        false,
        true,
        EngineOutcome::Completed("ignored".to_string()),
    );
    let resp = r.unwrap();
    assert_eq!(
        resp.choices[0].message.content,
        "<|system|>\nBe brief.\n<|user|>\nhi\n<|assistant|>\n\n\n[generated placeholder]"
    );
}

#[test]
fn usage_totals_are_sums_of_estimates() {
    let usage = build_usage("abcdefgh", "abcd");
    assert_eq!(usage.prompt_tokens, 2);
    assert_eq!(usage.completion_tokens, 1);
    assert_eq!(usage.total_tokens, 3);
}

#[test]
fn prompt_path_names_the_template_file() {
    assert_eq!(prompt_path("chat"), "/prompts/chat.txt");
}

#[test]
fn template_names_keeps_stems_of_txt_entries() {
    let entries = vec![
        "a.txt".to_string(),
        "b.md".to_string(),
        "c.txt".to_string(),
        ".txt".to_string(),
        "x".to_string(),
    ];
    let names = template_names(&entries);
    assert_eq!(names, vec!["a".to_string(), "c".to_string(), "".to_string()]);
}
