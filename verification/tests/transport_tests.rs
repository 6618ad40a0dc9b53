use vimgram::config::AIConfig;
use vimgram::error::AIError;
use vimgram::transport::AIClient;

fn ready_client() -> AIClient {
    let mut c = AIConfig::default();
    c.api_key = String::from("KEY");
    AIClient::new(c)
}

#[test]
fn unready_client_refuses_before_any_exchange() {
    let client = AIClient::new(AIConfig::default());
    assert!(!client.is_ready());
    assert_eq!(
        client.completion_request(None, "hi"),
        Err(AIError::NotConfigured)
    );
    let mut c = AIConfig::default();
    c.api_key = String::from("KEY");
    c.enabled = false;
    let disabled = AIClient::new(c);
    assert!(!disabled.is_ready());
    assert_eq!(
        disabled.completion_request(Some("sys"), "hi"),
        Err(AIError::NotConfigured)
    );
}

#[test]
fn request_address_follows_provider_scheme() {
    let client = ready_client();
    let req = client.completion_request(None, "hi").unwrap();
    assert_eq!(
        req.url,
        "https://generativelanguage.googleapis.com/v1beta/models/gemini-2.0-flash:generateContent?key=KEY"
    );
}

#[test]
fn request_body_without_system_instruction() {
    let client = ready_client();
    let req = client.completion_request(None, "hi").unwrap();
    assert_eq!(
        req.body,
        "{\"contents\":[{\"role\":\"user\",\"parts\":[{\"text\":\"hi\"}]}],\"generationConfig\":{\"temperature\":0.7,\"maxOutputTokens\":2048}}"
    );
}

#[test]
fn request_body_with_system_instruction() {
    let client = ready_client();
    let req = client.completion_request(Some("be brief"), "hi").unwrap();
    assert_eq!(
        req.body,
        "{\"contents\":[{\"role\":\"user\",\"parts\":[{\"text\":\"hi\"}]}],\"system_instruction\":{\"parts\":[{\"text\":\"be brief\"}]},\"generationConfig\":{\"temperature\":0.7,\"maxOutputTokens\":2048}}"
    );
}

#[test]
fn request_body_escapes_user_text() {
    let client = ready_client();
    let req = client
        .completion_request(None, "a\"b\\c\nd\te\u{1}f")
        .unwrap();
    assert!(req.body.contains("\"text\":\"a\\\"b\\\\c\\nd\\te\\u0001f\""));
    let body: serde_json::Value = serde_json::from_str(&req.body).unwrap();
    assert_eq!(
        body["contents"][0]["parts"][0]["text"],
        serde_json::Value::String(String::from("a\"b\\c\nd\te\u{1}f"))
    );
}

#[test]
fn request_body_passes_other_characters_through() {
    let client = ready_client();
    let req = client.completion_request(None, "héllo 🎉 ¿qué?").unwrap();
    assert!(req.body.contains("\"text\":\"héllo 🎉 ¿qué?\""));
    let body: serde_json::Value = serde_json::from_str(&req.body).unwrap();
    assert_eq!(
        body["contents"][0]["parts"][0]["text"],
        serde_json::Value::String(String::from("héllo 🎉 ¿qué?"))
    );
}

#[test]
fn status_429_is_rate_limited_sixty_regardless_of_body() {
    assert_eq!(
        AIClient::completion_outcome(429, "{\"candidates\":[]}"),
        Err(AIError::RateLimited(60))
    );
    assert_eq!(
        AIClient::completion_outcome(429, "plain text"),
        Err(AIError::RateLimited(60))
    );
}

#[test]
fn other_failure_statuses_carry_status_and_body() {
    assert_eq!(
        AIClient::completion_outcome(500, "oops"),
        Err(AIError::ApiError(String::from("500: oops")))
    );
    assert_eq!(
        AIClient::completion_outcome(403, ""),
        Err(AIError::ApiError(String::from("403: ")))
    );
}

#[test]
fn success_extracts_first_candidate_first_part() {
    let body = "{\"candidates\":[{\"content\":{\"parts\":[{\"text\":\"hello\"}]}}]}";
    assert_eq!(
        AIClient::completion_outcome(200, body),
        Ok(String::from("hello"))
    );
}

#[test]
fn later_candidates_and_parts_are_ignored() {
    let body = "{\"candidates\":[{\"content\":{\"role\":\"model\",\"parts\":[{\"text\":\"first\"},{\"text\":\"second\"}]}},{\"content\":{\"parts\":[{\"text\":\"other\"}]}}]}";
    assert_eq!(
        AIClient::completion_outcome(200, body),
        Ok(String::from("first"))
    );
}

#[test]
fn empty_candidates_fail_as_parse_error() {
    let out = AIClient::completion_outcome(200, "{\"candidates\":[]}");
    assert_eq!(
        out,
        Err(AIError::ParseError(String::from("No response from AI")))
    );
}

#[test]
fn absent_candidates_fail_as_parse_error() {
    let out = AIClient::completion_outcome(200, "{}");
    assert_eq!(
        out,
        Err(AIError::ParseError(String::from("No response from AI")))
    );
}

#[test]
fn empty_parts_fail_as_parse_error() {
    let body = "{\"candidates\":[{\"content\":{\"parts\":[]}}]}";
    assert_eq!(
        AIClient::completion_outcome(200, body),
        Err(AIError::ParseError(String::from("No response from AI")))
    );
}

#[test]
fn logical_error_with_success_status_is_api_error() {
    let body = "{\"error\":{\"message\":\"bad key\"}}";
    assert_eq!(
        AIClient::completion_outcome(200, body),
        Err(AIError::ApiError(String::from("bad key")))
    );
}

#[test]
fn unparseable_success_body_is_parse_error() {
    match AIClient::completion_outcome(200, "<html>") {
        Err(AIError::ParseError(_)) => {}
        other => panic!("expected a parse failure, got {:?}", other),
    }
}

#[test]
fn misshapen_success_body_is_parse_error() {
    let body = "{\"candidates\":[{\"content\":{\"parts\":[{\"text\":5}]}}]}";
    match AIClient::completion_outcome(200, body) {
        Err(AIError::ParseError(_)) => {}
        other => panic!("expected a parse failure, got {:?}", other),
    }
    let body = "{\"candidates\":[{\"no_content\":true}]}";
    match AIClient::completion_outcome(200, body) {
        Err(AIError::ParseError(_)) => {}
        other => panic!("expected a parse failure, got {:?}", other),
    }
}

#[test]
fn malformed_second_candidate_still_fails() {
    let body =
        "{\"candidates\":[{\"content\":{\"parts\":[{\"text\":\"ok\"}]}},{\"content\":null}]}";
    match AIClient::completion_outcome(200, body) {
        Err(AIError::ParseError(_)) => {}
        other => panic!("expected a parse failure, got {:?}", other),
    }
}

#[test]
fn error_messages_read_as_status_lines() {
    assert_eq!(
        AIError::NotConfigured.message(),
        "AI not configured. Set VIMGRAM_AI_KEY or run :ai setup"
    );
    assert_eq!(
        AIError::NetworkError(String::from("refused")).message(),
        "Network error: refused"
    );
    assert_eq!(
        AIError::ApiError(String::from("500: oops")).message(),
        "API error: 500: oops"
    );
    assert_eq!(
        AIError::ParseError(String::from("bad")).message(),
        "Parse error: bad"
    );
    assert_eq!(
        AIError::RateLimited(60).message(),
        "Rate limited. Try again in 60s"
    );
    assert_eq!(
        AIError::RateLimited(1234).message(),
        "Rate limited. Try again in 1234s"
    );
}
