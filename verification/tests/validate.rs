use indexmap::IndexMap;
use xai_grok_pager::setup_wizard::validate::{
    body_snippet, build_headers, generation_probe, generation_probe_body, generation_probe_succeeded, models_probe_outcome,
    validation_failure_message, validation_target, HeaderInsert, ModelsProbeOutcome, ProbeKind, ValidateRequest,
};

fn request(backend: &str) -> ValidateRequest {
    ValidateRequest {
        base_url: "http://127.0.0.1:9/v1/".into(),
        model: " test-model ".into(),
        api_key: Some("sk-test".into()),
        api_backend: backend.into(),
        auth_not_required: false,
        extra_headers: IndexMap::new(),
    }
}

fn pairs(headers: &[HeaderInsert]) -> Vec<(&str, &str)> {
    headers.iter().map(|h| (h.name.as_str(), h.value.as_str())).collect()
}

#[test]
fn validate_provider_endpoint_uses_responses_probe_for_responses_backend() {
    let probe = generation_probe(&request("responses"));
    assert_eq!(probe.kind, ProbeKind::Responses);
    assert_eq!(probe.url, "http://127.0.0.1:9/v1/responses");
    assert!(!probe.url.ends_with("chat/completions"));
    assert_eq!(probe.model, "test-model");
}

#[test]
fn other_backends_probe_their_generation_endpoint() {
    assert_eq!(generation_probe(&request("messages")).url, "http://127.0.0.1:9/v1/messages");
    assert_eq!(generation_probe(&request("messages")).kind, ProbeKind::Messages);
    assert_eq!(generation_probe(&request("chat_completions")).url, "http://127.0.0.1:9/v1/chat/completions");
    assert_eq!(generation_probe(&request("anything")).kind, ProbeKind::ChatCompletions);
}

#[test]
fn bearer_backends_send_an_authorization_header() {
    let headers = build_headers(&request("chat_completions")).unwrap();
    assert_eq!(pairs(&headers), vec![("content-type", "application/json"), ("authorization", "Bearer sk-test")]);
}

#[test]
fn messages_backend_sends_the_key_and_extra_headers() {
    let mut req = request("messages");
    req.api_key = Some("  sk-ant  ".into());
    req.extra_headers.insert("anthropic-version".into(), "2023-06-01".into());
    let headers = build_headers(&req).unwrap();
    assert_eq!(
        pairs(&headers),
        vec![("content-type", "application/json"), ("anthropic-version", "2023-06-01"), ("x-api-key", "sk-ant")]
    );
}

#[test]
fn keyless_providers_send_no_credentials() {
    let mut req = request("chat_completions");
    req.auth_not_required = true;
    req.api_key = None;
    let headers = build_headers(&req).unwrap();
    assert_eq!(pairs(&headers), vec![("content-type", "application/json")]);
}

#[test]
fn a_missing_key_is_refused() {
    let mut req = request("chat_completions");
    req.api_key = Some("   ".into());
    assert_eq!(build_headers(&req).unwrap_err(), "API key required to validate this provider");
    req.api_key = None;
    assert_eq!(build_headers(&req).unwrap_err(), "API key required to validate this provider");
}

#[test]
fn bad_extra_headers_are_refused_by_name() {
    let mut req = request("chat_completions");
    req.extra_headers.insert("bad name".into(), "v".into());
    assert_eq!(build_headers(&req).unwrap_err(), "bad header name bad name");
    let mut req = request("chat_completions");
    req.extra_headers.insert("x-ok".into(), "line\nbreak".into());
    assert_eq!(build_headers(&req).unwrap_err(), "bad header value for x-ok");
}

#[test]
fn keys_that_cannot_be_header_values_are_refused() {
    let mut req = request("messages");
    req.api_key = Some("sk\u{7f}".into());
    assert_eq!(build_headers(&req).unwrap_err(), "invalid API key header value");
    let mut req = request("chat_completions");
    req.api_key = Some("sk\u{1}x".into());
    assert_eq!(build_headers(&req).unwrap_err(), "invalid Authorization header value");
}

#[test]
fn validation_target_is_the_models_listing() {
    assert_eq!(validation_target(&request("x")).unwrap(), "http://127.0.0.1:9/v1/models");
    let mut req = request("x");
    req.base_url = "  https://api.example.com///  ".into();
    assert_eq!(validation_target(&req).unwrap(), "https://api.example.com/models");
    req.base_url = "   ".into();
    assert_eq!(validation_target(&req).unwrap_err(), "Provider base URL is required");
    let mut req = request("x");
    req.model = "\t".into();
    assert_eq!(validation_target(&req).unwrap_err(), "Provider model is required");
}

#[test]
fn statuses_decide_the_next_step() {
    assert_eq!(models_probe_outcome(200), ModelsProbeOutcome::Valid);
    assert_eq!(models_probe_outcome(204), ModelsProbeOutcome::Valid);
    assert_eq!(models_probe_outcome(404), ModelsProbeOutcome::ProbeGeneration);
    assert_eq!(models_probe_outcome(401), ModelsProbeOutcome::Failed);
    assert_eq!(models_probe_outcome(500), ModelsProbeOutcome::Failed);
    assert!(generation_probe_succeeded(201));
    assert!(!generation_probe_succeeded(404));
}

#[test]
fn body_snippets_are_trimmed_and_capped() {
    assert_eq!(body_snippet("   \n"), "<empty response body>");
    assert_eq!(body_snippet("  short body \n"), "short body");
    let long: String = std::iter::repeat('é').take(250).collect();
    let snippet = body_snippet(&long);
    assert_eq!(snippet.chars().count(), 203);
    assert!(snippet.ends_with("..."));
    let exact: String = std::iter::repeat('a').take(200).collect();
    assert_eq!(body_snippet(&exact), exact);
}

#[test]
fn failure_message_names_status_and_body() {
    assert_eq!(
        validation_failure_message("401 Unauthorized", " {\"error\":\"bad key\"} "),
        "Validation failed with 401 Unauthorized: {\"error\":\"bad key\"}"
    );
}

#[test]
fn cloned_request_keeps_its_values() {
    let mut req = request("messages");
    req.extra_headers.insert("a".into(), "b".into());
    assert_eq!(req.clone(), req);
}

#[test]
fn responses_probe_body_uses_output_tokens_and_input() {
    let body = generation_probe_body(&generation_probe(&request("responses")));
    assert_eq!(body.model, "test-model");
    assert_eq!(body.token_limit_field, "max_output_tokens");
    assert_eq!(body.token_limit, 1);
    assert_eq!(body.input_field, "input");
    assert_eq!(body.role, "user");
    assert_eq!(body.content, "ping");
}

#[test]
fn other_probe_bodies_use_max_tokens_and_messages() {
    for backend in ["messages", "chat_completions"] {
        let body = generation_probe_body(&generation_probe(&request(backend)));
        assert_eq!(body.token_limit_field, "max_tokens");
        assert_eq!(body.input_field, "messages");
        assert_eq!(body.token_limit, 1);
        assert_eq!(body.model, "test-model");
    }
}

#[test]
fn header_names_take_token_characters_of_either_case() {
    let mut req = request("chat_completions");
    req.extra_headers.insert("X-Trace_Id~1".into(), "v".into());
    assert!(build_headers(&req).is_ok());
    let mut req = request("chat_completions");
    req.extra_headers.insert("x-caf\u{e9}".into(), "v".into());
    assert_eq!(build_headers(&req).unwrap_err(), "bad header name x-caf\u{e9}");
    let mut req = request("chat_completions");
    req.extra_headers.insert("".into(), "v".into());
    assert_eq!(build_headers(&req).unwrap_err(), "bad header name ");
    let mut req = request("chat_completions");
    req.extra_headers.insert("a".repeat(65536), "v".into());
    assert!(build_headers(&req).is_err());
}
