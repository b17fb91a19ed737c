use apex_code::config::ApexConfig;
use apex_code::provider::{
    authorization_header, chat_completions_url, check_credentials, classify_failure,
    client_api_key, connect_failure_context, failover_notice, http_error_message,
    interpret_reply, is_local_gateway, models_to_try, needs_openrouter_headers,
    parse_failure_context, ChatError, FailureAction, FallbackRun, RawArguments, RawFunction,
    RawReply, RawToolCall,
};

fn reply() -> RawReply {
    RawReply {
        has_choice: true,
        has_message: true,
        content: None,
        tool_calls: None,
        prompt_tokens: None,
        completion_tokens: None,
    }
}

fn pool(primary: &str, fallback: &[&str], auto_fallback: bool) -> apex_code::config::ModelPoolConfig {
    let mut m = ApexConfig::default().models;
    m.primary = primary.to_string();
    m.fallback_pool = fallback.iter().map(|s| s.to_string()).collect();
    m.auto_fallback = auto_fallback;
    m
}

#[test]
fn models_to_try_puts_primary_first_without_duplicates() {
    let p = pool("a", &["b", "a", "c", "b"], true);
    assert_eq!(models_to_try(&p), vec!["a", "b", "c"]);
    let p = pool("solo", &[], true);
    assert_eq!(models_to_try(&p), vec!["solo"]);
}

#[test]
fn default_pool_deduplicates_primary() {
    let c = ApexConfig::default();
    let v = models_to_try(&c.models);
    assert_eq!(v.len(), 7);
    assert_eq!(v[0], c.models.primary);
    assert_eq!(v[1], "openrouter/deepseek/deepseek-r1:free");
}

#[test]
fn failures_are_classified() {
    assert_eq!(classify_failure("HTTP 429 Too Many Requests", false), FailureAction::BackOffAndTryNext);
    assert_eq!(classify_failure("provider is overloaded", false), FailureAction::BackOffAndTryNext);
    assert_eq!(classify_failure("queue busy", true), FailureAction::BackOffAndTryNext);
    assert_eq!(classify_failure("hit rate limit", true), FailureAction::BackOffAndTryNext);
    assert_eq!(classify_failure("HTTP 500", true), FailureAction::TryNext);
    assert_eq!(classify_failure("HTTP 500", false), FailureAction::Abort);
}

#[test]
fn fallback_run_walks_the_pool_in_order() {
    let p = pool("a", &["b", "c"], true);
    let mut run = FallbackRun::start(&p);
    assert_eq!(run.model(), "a");
    let s = run.on_failure("HTTP 429");
    assert!(s.back_off);
    assert_eq!(
        s.notice.as_deref(),
        Some("\x1b[33m[!] Model 'a' rate-limited or busy. Auto-routing to next fallback model in OmniRoute pool...\x1b[0m")
    );
    assert_eq!(s.next.as_ref().ok().map(|m| m.as_str()), Some("b"));
    let s = run.on_failure("HTTP 500");
    assert!(!s.back_off);
    assert_eq!(
        s.notice.as_deref(),
        Some("\x1b[33m[!] Model 'b' failed: HTTP 500. Trying fallback...\x1b[0m")
    );
    assert_eq!(s.next.as_ref().ok().map(|m| m.as_str()), Some("c"));
    assert_eq!(run.model(), "c");
    let s = run.on_failure("boom");
    match s.next {
        Err(e) => assert_eq!(e.message(), "All models in fallback pool failed. Last error: boom"),
        Ok(_) => panic!("the pool is exhausted"),
    }
}

#[test]
fn fallback_run_aborts_without_auto_fallback() {
    let p = pool("a", &["b"], false);
    let mut run = FallbackRun::start(&p);
    let s = run.on_failure("HTTP 401 unauthorized");
    assert!(s.notice.is_none());
    assert!(!s.back_off);
    match s.next {
        Err(ChatError::ModelFailed { message }) => assert_eq!(message, "HTTP 401 unauthorized"),
        other => panic!("unexpected {:?}", other),
    }
    // a rate limit still moves on
    let mut run = FallbackRun::start(&p);
    let s = run.on_failure("429");
    assert_eq!(s.next.ok().as_deref(), Some("b"));
}

#[test]
fn credentials_required_for_remote_gateways() {
    assert!(check_credentials("", "http://localhost:20128/v1").is_ok());
    assert!(check_credentials("", "http://127.0.0.1/v1").is_ok());
    assert!(check_credentials("key", "https://remote").is_ok());
    let e = check_credentials("", "https://remote").unwrap_err();
    assert_eq!(
        e.message(),
        "No API key found for gateway 'https://remote'!\nSet your key with: set OMNIROUTE_API_KEY=your_key or in .apex/config.toml"
    );
    assert!(is_local_gateway("http://localhost"));
    assert!(!is_local_gateway("https://openrouter.ai"));
}

#[test]
fn client_key_is_configured_or_empty() {
    let mut c = ApexConfig::default();
    assert_eq!(client_api_key(&c), "omniroute");
    c.provider.provider_type = "other".to_string();
    c.provider.base_url = "https://remote".to_string();
    assert_eq!(client_api_key(&c), "");
    c.provider.api_key = Some("k".to_string());
    assert_eq!(client_api_key(&c), "k");
}

#[test]
fn request_address_and_headers() {
    assert_eq!(chat_completions_url("http://localhost:20128/v1/"), "http://localhost:20128/v1/chat/completions");
    assert_eq!(chat_completions_url("http://x//"), "http://x/chat/completions");
    assert_eq!(chat_completions_url("http://x"), "http://x/chat/completions");
    assert_eq!(authorization_header("sk"), "Bearer sk");
    assert_eq!(authorization_header(""), "Bearer omniroute");
    assert!(needs_openrouter_headers("https://openrouter.ai/api/v1"));
    assert!(!needs_openrouter_headers("http://localhost"));
}

#[test]
fn reply_errors_in_order() {
    let mut r = reply();
    r.has_choice = false;
    assert!(matches!(interpret_reply(&r), Err(ChatError::NoChoices)));
    let mut r = reply();
    r.has_message = false;
    assert!(matches!(interpret_reply(&r), Err(ChatError::MissingMessage)));
    let mut r = reply();
    r.tool_calls = Some(vec![RawToolCall { id: None, call_type: None, function: None }]);
    assert!(matches!(interpret_reply(&r), Err(ChatError::MissingFunction)));
    assert_eq!(ChatError::NoChoices.message(), "No choices returned in API response");
    assert_eq!(ChatError::MissingMessage.message(), "Missing message in choice");
    assert_eq!(ChatError::MissingFunction.message(), "Missing function in tool_call");
}

#[test]
fn reply_fills_defaults() {
    let mut r = reply();
    r.content = Some("hi".to_string());
    r.prompt_tokens = Some(12);
    r.tool_calls = Some(vec![
        RawToolCall {
            id: None,
            call_type: None,
            function: Some(RawFunction { name: None, arguments: RawArguments::Missing }),
        },
        RawToolCall {
            id: Some("c9".to_string()),
            call_type: Some("function".to_string()),
            function: Some(RawFunction {
                name: Some("git_status".to_string()),
                arguments: RawArguments::Json("{\"a\":1}".to_string()),
            }),
        },
    ]);
    let out = interpret_reply(&r).unwrap();
    assert_eq!(out.content.as_deref(), Some("hi"));
    assert_eq!(out.prompt_tokens, 12);
    assert_eq!(out.completion_tokens, 0);
    let calls = out.tool_calls.unwrap();
    assert_eq!(calls.len(), 2);
    assert_eq!(calls[0].id, "call_0");
    assert_eq!(calls[0].call_type, "function");
    assert_eq!(calls[0].function.name, "");
    assert_eq!(calls[0].function.arguments, "{}");
    assert_eq!(calls[1].id, "c9");
    assert_eq!(calls[1].function.name, "git_status");
    assert_eq!(calls[1].function.arguments, "{\"a\":1}");
}

#[test]
fn empty_tool_call_array_means_none() {
    let mut r = reply();
    r.tool_calls = Some(vec![]);
    assert!(interpret_reply(&r).unwrap().tool_calls.is_none());
}

#[test]
fn gateway_texts() {
    assert_eq!(
        connect_failure_context("http://h/chat/completions"),
        "Failed to connect to OmniRoute gateway at http://h/chat/completions. Ensure OmniRoute is running."
    );
    assert_eq!(
        parse_failure_context("http://h"),
        "Failed to parse JSON response from OmniRoute gateway at http://h"
    );
    assert_eq!(
        http_error_message("502 Bad Gateway", "oops"),
        "OmniRoute gateway error (HTTP 502 Bad Gateway): oops"
    );
    assert_eq!(
        failover_notice(FailureAction::TryNext, "m", "e"),
        "\x1b[33m[!] Model 'm' failed: e. Trying fallback...\x1b[0m"
    );
    assert_eq!(
        ChatError::ModelFailed { message: "x".to_string() }.message(),
        "x"
    );
}
