use le_hey_eye_lib::cloudflare::{CloudflareProvider, CloudflareStreamProcessor};

#[test]
fn cloudflare_style_end_to_end() {
    let mut p = CloudflareStreamProcessor::new();
    assert!(!p.process_line("data: {\"response\":\"Hel\"}"));
    assert!(!p.process_line("data: {\"response\":\"lo\"}"));
    assert!(p.process_line("data: [DONE]"));
    let response = p.finalize();
    assert_eq!(response.response, "Hello");
    assert!(response.usage.is_none());
    assert!(response.thinking.is_none());
}

#[test]
fn cloudflare_usage_last_wins_and_total_is_recomputed() {
    let mut p = CloudflareStreamProcessor::new();
    let _ = p.process_line(
        "data: {\"response\":\"a\",\"usage\":{\"prompt_tokens\":1,\"completion_tokens\":1,\"total_tokens\":50}}",
    );
    let _ = p.process_line(
        "data: {\"response\":\"b\",\"usage\":{\"prompt_tokens\":3,\"completion_tokens\":4,\"total_tokens\":99}}",
    );
    let _ = p.process_line("data: [DONE]");
    let response = p.finalize();
    assert_eq!(response.response, "ab");
    let usage = response.usage.expect("usage seen");
    assert_eq!(usage.prompt_tokens, 3);
    assert_eq!(usage.completion_tokens, 4);
    // The reported total (99) is discarded: the adapter recomputes it.
    assert_eq!(usage.total_tokens, 7);
}

#[test]
fn cloudflare_non_data_lines_are_ignored() {
    let mut p = CloudflareStreamProcessor::new();
    assert!(!p.process_line("event: something"));
    assert!(!p.process_line(": comment"));
    assert!(!p.process_line(""));
    assert_eq!(p.text_so_far(), "");
}

#[test]
fn cloudflare_malformed_payload_is_skipped() {
    let mut p = CloudflareStreamProcessor::new();
    let _ = p.process_line("data: {\"response\":\"ok\"}");
    let _ = p.process_line("data: {broken");
    let _ = p.process_line("data: {\"no_response_field\":1}");
    let _ = p.process_line("data: {\"response\":\"!\"}");
    assert_eq!(p.text_so_far(), "ok!");
}

#[test]
fn cloudflare_partial_usage_is_dropped() {
    let mut p = CloudflareStreamProcessor::new();
    let _ = p.process_line(
        "data: {\"response\":\"x\",\"usage\":{\"prompt_tokens\":3}}",
    );
    let _ = p.process_line("data: [DONE]");
    assert!(p.finalize().usage.is_none());
}

#[test]
fn cloudflare_model_list_is_fixed() {
    let provider = CloudflareProvider {};
    assert_eq!(provider.list_models(), vec!["@cf/meta/llama-3-8b-instruct".to_string()]);
}
