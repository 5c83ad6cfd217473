use le_hey_eye_lib::credentials::{AnthropicCredentials, CloudflareCredentials};
use le_hey_eye_lib::registry::resolve;
use le_hey_eye_lib::session::{
    anthropic_headers, cloudflare_headers, status_is_error, StreamSession,
};

#[test]
fn session_runs_a_cloudflare_stream_across_chunks() {
    let provider = resolve("cloudflare").unwrap();
    let mut session = StreamSession::start(&provider);
    let mut emitted: Vec<String> = Vec::new();
    let mut done = false;
    // Deliberately awkward chunk boundaries, including inside a JSON payload.
    for chunk in ["data: {\"resp", "onse\":\"Hel\"}\ndata: {\"response\":\"lo\"}\nda", "ta: [DONE]\n"] {
        let (emissions, d) = session.push_chunk(chunk);
        emitted.extend(emissions.into_iter().map(|e| e.text));
        done = d;
    }
    assert!(done);
    let response = session.finish();
    assert_eq!(response.response, "Hello");
    assert!(response.usage.is_none());
    assert!(response.thinking.is_none());
    // Emissions carry the cumulative text so far.
    assert_eq!(emitted, vec!["Hel".to_string(), "Hello".to_string(), "Hello".to_string()]);
}

#[test]
fn session_runs_an_anthropic_stream_across_chunks() {
    let provider = resolve("anthropic").unwrap();
    let mut session = StreamSession::start(&provider);
    let lines = [
        "data: {\"type\":\"message_start\",\"message\":{\"usage\":{\"input_tokens\":10,\"output_tokens\":0}}}",
        "data: {\"type\":\"content_block_delta\",\"index\":0,\"delta\":{\"type\":\"text_delta\",\"text\":\"Hi\"}}",
        "data: {\"type\":\"content_block_delta\",\"index\":0,\"delta\":{\"type\":\"text_delta\",\"text\":\" there\"}}",
        "data: {\"type\":\"message_delta\",\"delta\":{},\"usage\":{\"output_tokens\":2}}",
        "data: {\"type\":\"message_stop\"}",
    ];
    let whole = lines.join("\n") + "\n";
    let mut done = false;
    let mut last_emission = String::new();
    // Feed in 7-byte chunks to exercise the carry buffer.
    let bytes = whole.as_bytes();
    let mut start = 0;
    while start < bytes.len() {
        let end = (start + 7).min(bytes.len());
        let chunk = std::str::from_utf8(&bytes[start..end]).unwrap();
        let (emissions, d) = session.push_chunk(chunk);
        if let Some(e) = emissions.last() {
            last_emission = e.text.clone();
        }
        done = done || d;
        start = end;
    }
    assert!(done);
    assert_eq!(last_emission, "Hi there");
    let response = session.finish();
    assert_eq!(response.response, "Hi there");
    let usage = response.usage.unwrap();
    assert_eq!((usage.prompt_tokens, usage.completion_tokens, usage.total_tokens), (10, 2, 12));
}

#[test]
fn session_finalizes_gracefully_without_terminal_frame() {
    let provider = resolve("anthropic").unwrap();
    let mut session = StreamSession::start(&provider);
    let (_, done) = session.push_chunk(
        "data: {\"type\":\"content_block_delta\",\"index\":0,\"delta\":{\"type\":\"text_delta\",\"text\":\"partial\"}}",
    );
    assert!(!done, "no newline yet, nothing processed");
    let response = session.finish();
    assert_eq!(response.response, "partial", "the unterminated line is flushed and applied");
}

#[test]
fn lines_after_the_terminal_sentinel_are_not_processed() {
    let provider = resolve("cloudflare").unwrap();
    let mut session = StreamSession::start(&provider);
    let (_, done) = session.push_chunk(
        "data: {\"response\":\"keep\"}\ndata: [DONE]\ndata: {\"response\":\"dropped\"}\n",
    );
    assert!(done);
    let response = session.finish();
    assert_eq!(response.response, "keep");
}

#[test]
fn error_statuses_are_classified() {
    assert!(!status_is_error(200));
    assert!(!status_is_error(302));
    assert!(!status_is_error(399));
    assert!(status_is_error(400));
    assert!(status_is_error(404));
    assert!(status_is_error(500));
    assert!(status_is_error(599));
    assert!(!status_is_error(600));
}

#[test]
fn request_headers_are_exact() {
    let a = anthropic_headers(&AnthropicCredentials { api_key: "k1".to_string() });
    assert_eq!(
        a,
        vec![
            ("x-api-key".to_string(), "k1".to_string()),
            ("anthropic-version".to_string(), "2023-06-01".to_string()),
            ("Content-Type".to_string(), "application/json".to_string()),
        ]
    );
    let c = cloudflare_headers(&CloudflareCredentials {
        account_id: "acct".to_string(),
        api_token: "tok".to_string(),
    });
    assert_eq!(c, vec![("Authorization".to_string(), "Bearer tok".to_string())]);
}
