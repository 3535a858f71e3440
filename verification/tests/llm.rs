//! Text correction.

use dl_voice_typing::llm::prompt::build_correction_prompt;
use dl_voice_typing::llm::redact::{
    redact_error_detail, redact_query_credentials, url_contains_credential_query, REDACT_QUERY_KEYS,
};
use dl_voice_typing::llm::{ChatReply, LLMClient, MockCorrector, PingReply, TextCorrector};

#[test]
fn test_llm_client_new() {
    let client = LLMClient::new(
        "https://api.example.com/v1/chat/completions".to_string(),
        "test-key".to_string(),
        "gpt-4".to_string(),
    );
    assert_eq!(client.model, "gpt-4");
}

#[test]
fn test_mock_corrector() {
    let mock = MockCorrector::new("corrected text");
    assert_eq!(mock.correct_sync("raw text").unwrap(), "corrected text");
    assert!(mock.test_connection_sync().is_ok());
}

#[test]
fn test_mock_corrector_config_matching() {
    let mock = MockCorrector::new("ok").with_config("url", "key", "model");
    assert!(mock.matches_config("url", "key", "model"));
    assert!(!mock.matches_config("other", "key", "model"));
}

#[test]
fn test_mock_corrector_failing() {
    let mock = MockCorrector::failing();
    assert!(mock.correct_sync("raw").is_err());
}

#[test]
fn test_redact_query_keys_content_pinned() {
    assert_eq!(
        REDACT_QUERY_KEYS,
        [
            "key",
            "apikey",
            "api_key",
            "token",
            "access_token",
            "code",
            "secret",
            "password",
            "signature",
            "auth",
            "authorization",
            "bearer",
            "credential",
            "sk"
        ]
    );
}

#[test]
fn test_redact_all_markers_both_prefixes() {
    for name in REDACT_QUERY_KEYS {
        for prefix in ['?', '&'] {
            let input = format!("http://x/v1{prefix}{name}=SECRET&next=1");
            let out = redact_error_detail(&input, "");
            assert!(
                out.contains(&format!("{prefix}{name}=***")),
                "input: {input}"
            );
            assert!(!out.contains("SECRET"), "input: {input}");
            assert!(out.contains("&next=1"), "input: {input}");
        }
    }
}

#[test]
fn test_redact_case_insensitive_variants() {
    assert_eq!(
        redact_error_detail("http://x?key=SECRET", ""),
        "http://x?key=***"
    );
    assert_eq!(
        redact_error_detail("http://x&API_KEY=SECRET", ""),
        "http://x&API_KEY=***"
    );
}

#[test]
fn test_redact_value_runs_to_amp_boundary() {
    assert_eq!(
        redact_error_detail("http://x?key=A1B2&other=2", ""),
        "http://x?key=***&other=2"
    );
}

#[test]
fn test_redact_swallows_trailing_paren_conservatively() {
    assert_eq!(
        redact_error_detail("error for url (http://x?key=AB)", ""),
        "error for url (http://x?key=***"
    );
}

#[test]
fn test_redact_replaces_api_key_value() {
    let out = redact_error_detail("LLM error: something sk-12345 went wrong", "sk-12345");
    assert_eq!(out, "LLM error: something [REDACTED] went wrong");
}

#[test]
fn test_redact_empty_api_key_returns_input_unchanged_apart_from_query() {
    assert_eq!(redact_error_detail("plain error", ""), "plain error");
    assert_eq!(redact_error_detail("值 abcdef 值", ""), "值 abcdef 值");
}

#[test]
fn test_redact_truncates_over_500_chars() {
    let long = "x".repeat(600);
    assert_eq!(redact_error_detail(&long, "").chars().count(), 500);
}

#[test]
fn test_redact_exact_500_not_truncated() {
    let exact = "x".repeat(500);
    assert_eq!(redact_error_detail(&exact, "").chars().count(), 500);
}

#[test]
fn test_redact_multibyte_no_panic() {
    let out = redact_error_detail("错误信息：连接失败 请重试", "");
    assert_eq!(out, "错误信息：连接失败 请重试");
}

#[test]
fn test_prompt_not_empty() {
    let prompt = build_correction_prompt();
    assert!(!prompt.is_empty());
}

#[test]
fn test_prompt_contains_rules() {
    let prompt = build_correction_prompt();
    assert!(prompt.contains("同音字"));
    assert!(prompt.contains("拼写"));
    assert!(prompt.contains("不要改写"));
    assert!(prompt.contains("Python"));
    assert!(prompt.contains("JSON"));
}

#[test]
fn test_prompt_contains_examples() {
    let prompt = build_correction_prompt();
    assert!(prompt.contains("配森"));
    assert!(prompt.contains("杰森"));
    assert!(prompt.contains("今天天气不错"));
    assert!(prompt.contains("pickage"));
}

fn client() -> LLMClient {
    LLMClient::new("u".to_string(), "k1".to_string(), "m".to_string())
}

#[test]
fn requests_hold_the_instruction_and_the_text() {
    let request = client().correction_request("配森");
    assert_eq!((request.model.as_str(), request.temperature_tenths), ("m", 1));
    assert_eq!(request.messages[0].role, "system");
    assert_eq!(request.messages[0].content, build_correction_prompt());
    assert_eq!((request.messages[1].role.as_str(), request.messages[1].content.as_str()), ("user", "配森"));
    let ping = client().ping_request();
    assert_eq!((ping.messages.len(), ping.messages[0].content.as_str()), (1, "Hi"));
    assert_eq!(ping.temperature_tenths, 0);
    assert_eq!(client().authorization(), "Bearer k1");
}

#[test]
fn the_first_choice_is_the_correction() {
    let choices = vec!["Python".to_string(), "other".to_string()];
    assert_eq!(client().correct("配森", ChatReply::Choices(choices)).unwrap(), "Python");
    assert_eq!(client().correct("配森", ChatReply::Choices(vec![])).unwrap(), "配森");
}

#[test]
fn failed_corrections_tell_why() {
    let cases = [
        (ChatReply::Unsent("timeout".to_string()), "request failed: timeout"),
        (
            ChatReply::Refused("401 Unauthorized".to_string(), "{}".to_string()),
            "API error 401 Unauthorized: {}",
        ),
        (ChatReply::Unreadable("eof".to_string()), "parse response failed: eof"),
    ];
    for (reply, expected) in cases {
        let e = client().correct("x", reply).unwrap_err();
        assert!(e.to_string().ends_with(expected), "{expected}");
    }
}

#[test]
fn connection_tests_redact_the_address() {
    assert!(client().test_connection(PingReply::Accepted).is_ok());
    let e = client().test_connection(PingReply::Refused("500".to_string())).unwrap_err();
    assert!(e.to_string().ends_with("connection test failed: HTTP 500"));
    let sent = "url http://h/?token=abc and k1".to_string();
    let e = client().test_connection(PingReply::Unsent(sent)).unwrap_err();
    let told = e.to_string();
    assert!(told.ends_with("connection test failed: url http://h/?token=*** and [REDACTED]"));
}

#[test]
fn credentials_in_addresses_are_found() {
    assert!(url_contains_credential_query("http://h/v1?a=1&Key=x"));
    assert!(!url_contains_credential_query("http://h/v1?keyboard=x"));
    assert!(!url_contains_credential_query("http://h/key=x"));
    assert_eq!(redact_query_credentials("?a=1&KEY=x&b=2"), "?a=1&KEY=***&b=2");
    let redacted = redact_query_credentials("?sk=1 ?sk=2");
    assert_eq!(redacted, "?sk=*** ?sk=***");
    assert_eq!(redact_query_credentials(&redacted), redacted);
}
