use ai_proxy::dispatch::{
    dispatch_begin, dispatch_finish, DispatchStep, HttpEvent, PreflightError,
};
use ai_proxy::envelope::{outcome_envelope, AiProxyRequest, AiProxyResponse};
use ai_proxy::strategy::Provider;

fn s(text: &str) -> String {
    text.to_string()
}

fn request(provider: &str, proxy_url: Option<&str>) -> AiProxyRequest {
    AiProxyRequest {
        provider: s(provider),
        api_key: s("test-key"),
        prompt: s("say hello"),
        model: s("test-model"),
        proxy_url: proxy_url.map(s),
    }
}

fn assert_exactly_one_side(e: &AiProxyResponse) {
    assert_eq!(e.success, e.content.is_some());
    assert_eq!(e.success, e.error.is_none());
    assert!(e.content.is_some() != e.error.is_some());
}

#[test]
fn envelope_sides_are_exclusive() {
    let ok = outcome_envelope(Ok(s("fine")));
    assert_exactly_one_side(&ok);
    assert_eq!(ok.content.as_deref(), Some("fine"));
    let err = outcome_envelope(Err(s("broken")));
    assert_exactly_one_side(&err);
    assert_eq!(err.error.as_deref(), Some("broken"));
}

#[test]
fn unsupported_provider_is_rejected_without_a_call() {
    let req = request("llama", None);
    match dispatch_begin(&req) {
        Ok(DispatchStep::Rejected(e)) => {
            assert_exactly_one_side(&e);
            assert!(!e.success);
            assert_eq!(e.error.as_deref(), Some("Unsupported provider: llama"));
        }
        _ => panic!("expected a rejected envelope"),
    }
}

#[test]
fn malformed_proxy_url_fails_preflight() {
    let req = request("qwen", Some("::not a url::"));
    match dispatch_begin(&req) {
        Err(e) => {
            assert!(matches!(e, PreflightError::Proxy(_)));
            let message = e.message();
            assert!(message.starts_with("Failed to set proxy: "), "{}", message);
        }
        Ok(_) => panic!("expected a preflight failure"),
    }
}

#[test]
fn well_formed_proxy_url_passes_preflight() {
    let req = request("qwen", Some("http://127.0.0.1:8080"));
    assert!(matches!(dispatch_begin(&req), Ok(DispatchStep::Call(_))));
}

#[test]
fn qwen_wire_request_shape() {
    let req = request("qwen", None);
    let call = match dispatch_begin(&req) {
        Ok(DispatchStep::Call(call)) => call,
        _ => panic!("expected a prepared call"),
    };
    assert_eq!(call.provider, Provider::Qwen);
    assert_eq!(
        call.wire.url,
        "https://dashscope.aliyuncs.com/api/v1/services/aigc/text-generation/generation"
    );
    assert_eq!(call.wire.auth_header.as_deref(), Some("Bearer test-key"));
    let sent: serde_json::Value = serde_json::from_str(&call.wire.body_text).unwrap();
    let expected: serde_json::Value = serde_json::from_str(
        r#"{"model":"test-model","input":{"messages":[{"role":"user","content":"say hello"}]},"parameters":{"result_format":"message"}}"#,
    )
    .unwrap();
    assert_eq!(sent, expected);
}

#[test]
fn gemini_wire_request_shape() {
    let req = request("gemini", None);
    let call = match dispatch_begin(&req) {
        Ok(DispatchStep::Call(call)) => call,
        _ => panic!("expected a prepared call"),
    };
    assert_eq!(call.provider, Provider::Gemini);
    assert_eq!(
        call.wire.url,
        "https://generativelanguage.googleapis.com/v1beta/models/test-model:generateContent?key=test-key"
    );
    assert_eq!(call.wire.auth_header, None);
    let sent: serde_json::Value = serde_json::from_str(&call.wire.body_text).unwrap();
    let expected: serde_json::Value =
        serde_json::from_str(r#"{"contents":[{"parts":[{"text":"say hello"}]}]}"#).unwrap();
    assert_eq!(sent, expected);
}

#[test]
fn chatgpt_wire_request_shape() {
    let req = request("chatgpt", None);
    let call = match dispatch_begin(&req) {
        Ok(DispatchStep::Call(call)) => call,
        _ => panic!("expected a prepared call"),
    };
    assert_eq!(call.provider, Provider::Chatgpt);
    assert_eq!(call.wire.url, "https://api.openai.com/v1/chat/completions");
    assert_eq!(call.wire.auth_header.as_deref(), Some("Bearer test-key"));
    let sent: serde_json::Value = serde_json::from_str(&call.wire.body_text).unwrap();
    let expected: serde_json::Value = serde_json::from_str(
        r#"{"model":"test-model","messages":[{"role":"user","content":"say hello"}],"stream":false}"#,
    )
    .unwrap();
    assert_eq!(sent, expected);
}

#[test]
fn qwen_success_body_yields_content() {
    let body = r#"{"output":{"choices":[{"message":{"content":"hi"}}]}}"#;
    let e = dispatch_finish(
        Provider::Qwen,
        HttpEvent::Response { status: 200, body: Ok(s(body)) },
    );
    assert_exactly_one_side(&e);
    assert!(e.success);
    assert_eq!(e.content.as_deref(), Some("hi"));
}

#[test]
fn qwen_fallback_body_yields_content() {
    let body = r#"{"output":{"text":"hi2"}}"#;
    let e = dispatch_finish(
        Provider::Qwen,
        HttpEvent::Response { status: 200, body: Ok(s(body)) },
    );
    assert!(e.success);
    assert_eq!(e.content.as_deref(), Some("hi2"));
}

#[test]
fn qwen_body_without_content_reports_missing_content() {
    let body = r#"{"output":{"finish_reason":"stop"}}"#;
    let e = dispatch_finish(
        Provider::Qwen,
        HttpEvent::Response { status: 200, body: Ok(s(body)) },
    );
    assert_exactly_one_side(&e);
    assert_eq!(e.error.as_deref(), Some("No content in Qwen response"));
}

#[test]
fn gemini_success_body_concatenates_parts() {
    let body = r#"{"candidates":[{"content":{"parts":[{"text":"a"},{"text":"b"}]}}]}"#;
    let e = dispatch_finish(
        Provider::Gemini,
        HttpEvent::Response { status: 200, body: Ok(s(body)) },
    );
    assert!(e.success);
    assert_eq!(e.content.as_deref(), Some("ab"));
}

#[test]
fn gemini_empty_parts_body_reports_missing_content() {
    let body = r#"{"candidates":[{"content":{"parts":[]}}]}"#;
    let e = dispatch_finish(
        Provider::Gemini,
        HttpEvent::Response { status: 200, body: Ok(s(body)) },
    );
    assert_exactly_one_side(&e);
    assert_eq!(e.error.as_deref(), Some("No content in Gemini response"));
}

#[test]
fn chatgpt_success_body_yields_content() {
    let body = r#"{"choices":[{"message":{"content":"ok"}}]}"#;
    let e = dispatch_finish(
        Provider::Chatgpt,
        HttpEvent::Response { status: 200, body: Ok(s(body)) },
    );
    assert!(e.success);
    assert_eq!(e.content.as_deref(), Some("ok"));
}

#[test]
fn http_401_reports_status_and_body_for_every_provider() {
    for (provider, label) in [
        (Provider::Qwen, "Qwen"),
        (Provider::Gemini, "Gemini"),
        (Provider::Chatgpt, "ChatGPT"),
    ] {
        let e = dispatch_finish(
            provider,
            HttpEvent::Response { status: 401, body: Ok(s("bad key")) },
        );
        assert_exactly_one_side(&e);
        let message = e.error.unwrap();
        assert_eq!(message, format!("{} API error 401: bad key", label));
        assert!(message.contains("401"));
        assert!(message.contains("bad key"));
    }
}

#[test]
fn unreadable_error_body_uses_placeholder() {
    let e = dispatch_finish(
        Provider::Qwen,
        HttpEvent::Response { status: 500, body: Err(s("read failed")) },
    );
    assert_eq!(e.error.as_deref(), Some("Qwen API error 500: Unknown error"));
}

#[test]
fn transport_failure_is_reported_with_the_cause() {
    let e = dispatch_finish(Provider::Gemini, HttpEvent::Transport(s("connection reset")));
    assert_exactly_one_side(&e);
    assert_eq!(e.error.as_deref(), Some("Gemini request failed: connection reset"));
}

#[test]
fn invalid_json_body_reports_parse_failure() {
    let e = dispatch_finish(
        Provider::Chatgpt,
        HttpEvent::Response { status: 200, body: Ok(s("not json")) },
    );
    assert_exactly_one_side(&e);
    let message = e.error.unwrap();
    assert!(message.starts_with("Failed to parse ChatGPT response: "), "{}", message);
}

#[test]
fn unreadable_success_body_reports_parse_failure() {
    let e = dispatch_finish(
        Provider::Qwen,
        HttpEvent::Response { status: 200, body: Err(s("decode error")) },
    );
    assert_eq!(e.error.as_deref(), Some("Failed to parse Qwen response: decode error"));
}

#[test]
fn interleaved_dispatches_stay_independent() {
    let qwen_req = request("qwen", None);
    let gemini_req = request("gemini", None);
    let qwen_call = match dispatch_begin(&qwen_req) {
        Ok(DispatchStep::Call(call)) => call,
        _ => panic!("expected a prepared call"),
    };
    let gemini_call = match dispatch_begin(&gemini_req) {
        Ok(DispatchStep::Call(call)) => call,
        _ => panic!("expected a prepared call"),
    };
    let qwen_body = r#"{"output":{"text":"from qwen"}}"#;
    let gemini_body = r#"{"candidates":[{"content":{"parts":[{"text":"from gemini"}]}}]}"#;
    let e2 = dispatch_finish(
        gemini_call.provider,
        HttpEvent::Response { status: 200, body: Ok(s(gemini_body)) },
    );
    let e1 = dispatch_finish(
        qwen_call.provider,
        HttpEvent::Response { status: 200, body: Ok(s(qwen_body)) },
    );
    assert_eq!(e1.content.as_deref(), Some("from qwen"));
    assert_eq!(e2.content.as_deref(), Some("from gemini"));
}
