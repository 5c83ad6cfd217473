use le_hey_eye_lib::anthropic::{
    AnthropicMessageRole, AnthropicStreamProcessor, ContentBlock, MessageContent,
};

fn delta_line(text: &str) -> String {
    format!(
        "data: {{\"type\":\"content_block_delta\",\"index\":0,\"delta\":{{\"type\":\"text_delta\",\"text\":\"{text}\"}}}}"
    )
}

#[test]
fn anthropic_style_end_to_end() {
    let mut p = AnthropicStreamProcessor::new();
    let start = "data: {\"type\":\"message_start\",\"message\":{\"id\":\"m1\",\"type\":\"message\",\"role\":\"assistant\",\"content\":[],\"model\":\"anthropic-small\",\"usage\":{\"input_tokens\":10,\"output_tokens\":0}}}";
    assert_eq!(p.process_sse_line(start), Ok(false));
    assert_eq!(p.process_sse_line(&delta_line("Hi")), Ok(false));
    assert_eq!(p.process_sse_line(&delta_line(" there")), Ok(false));
    let md = "data: {\"type\":\"message_delta\",\"delta\":{\"stop_reason\":\"end_turn\",\"stop_sequence\":null},\"usage\":{\"output_tokens\":2}}";
    assert_eq!(p.process_sse_line(md), Ok(false));
    assert_eq!(p.process_sse_line("data: {\"type\":\"message_stop\"}"), Ok(true));

    let response = p.finalize();
    assert_eq!(response.response, "Hi there");
    let usage = response.usage.expect("usage should be present");
    assert_eq!(usage.prompt_tokens, 10);
    assert_eq!(usage.completion_tokens, 2);
    assert_eq!(usage.total_tokens, 12);
    assert!(response.thinking.is_none());
}

#[test]
fn malformed_line_is_tolerated_between_valid_deltas() {
    let mut p = AnthropicStreamProcessor::new();
    assert_eq!(p.process_sse_line(&delta_line("Hi")), Ok(false));
    assert_eq!(p.process_sse_line("data: {not json at all"), Ok(false));
    assert_eq!(p.process_sse_line(&delta_line("!")), Ok(false));
    assert_eq!(p.get_text_content(), "Hi!");
}

#[test]
fn framing_lines_leave_the_state_untouched() {
    let mut p = AnthropicStreamProcessor::new();
    let _ = p.process_sse_line(&delta_line("x"));
    assert_eq!(p.process_sse_line("event: content_block_delta"), Ok(false));
    assert_eq!(p.process_sse_line(": keepalive"), Ok(false));
    assert_eq!(p.process_sse_line(""), Ok(false));
    assert_eq!(p.process_sse_line("data: {\"type\":\"ping\"}"), Ok(false));
    assert_eq!(p.get_text_content(), "x");
}

#[test]
fn thinking_deltas_accumulate_separately() {
    let mut p = AnthropicStreamProcessor::new();
    let t1 = "data: {\"type\":\"content_block_delta\",\"index\":0,\"delta\":{\"type\":\"thinking_delta\",\"thinking\":\"Let me\"}}";
    let t2 = "data: {\"type\":\"content_block_delta\",\"index\":0,\"delta\":{\"type\":\"thinking_delta\",\"thinking\":\" think\"}}";
    let sig = "data: {\"type\":\"content_block_delta\",\"index\":0,\"delta\":{\"type\":\"signature_delta\",\"signature\":\"abc\"}}";
    let _ = p.process_sse_line(t1);
    let _ = p.process_sse_line(t2);
    let _ = p.process_sse_line(sig);
    let _ = p.process_sse_line(&delta_line("answer"));
    assert_eq!(p.get_thinking_content(), Some("Let me think".to_string()));
    assert_eq!(p.get_text_content(), "answer");
    let response = p.finalize();
    assert_eq!(response.thinking, Some("Let me think".to_string()));
}

#[test]
fn output_token_count_last_value_wins() {
    let mut p = AnthropicStreamProcessor::new();
    let start = "data: {\"type\":\"message_start\",\"message\":{\"usage\":{\"input_tokens\":7,\"output_tokens\":0}}}";
    let _ = p.process_sse_line(start);
    let _ = p.process_sse_line(
        "data: {\"type\":\"message_delta\",\"delta\":{},\"usage\":{\"output_tokens\":2}}",
    );
    let _ = p.process_sse_line(
        "data: {\"type\":\"message_delta\",\"delta\":{},\"usage\":{\"output_tokens\":5}}",
    );
    let merged = p.get_usage().expect("usage captured at start");
    assert_eq!(merged.input_tokens, 7);
    assert_eq!(merged.output_tokens, 5);
    let _ = p.process_sse_line("data: {\"type\":\"message_stop\"}");
    let response = p.finalize();
    let usage = response.usage.unwrap();
    assert_eq!(usage.completion_tokens, 5);
    assert_eq!(usage.total_tokens, 12);
}

#[test]
fn unstarted_index_is_skipped_once_framing_is_in_use() {
    let mut p = AnthropicStreamProcessor::new();
    let _ = p.process_sse_line("data: {\"type\":\"content_block_start\",\"index\":0,\"content_block\":{\"type\":\"text\",\"text\":\"\"}}");
    let stray = "data: {\"type\":\"content_block_delta\",\"index\":7,\"delta\":{\"type\":\"text_delta\",\"text\":\"BAD\"}}";
    let _ = p.process_sse_line(stray);
    assert_eq!(p.get_text_content(), "");
    let _ = p.process_sse_line(&delta_line("ok"));
    assert_eq!(p.get_text_content(), "ok");
}

#[test]
fn snapshot_is_stable_after_terminal_event() {
    let mut p = AnthropicStreamProcessor::new();
    let _ = p.process_sse_line(&delta_line("done"));
    assert_eq!(p.process_sse_line("data: {\"type\":\"message_stop\"}"), Ok(true));
    let text_a = p.get_text_content();
    let usage_a = p.get_usage();
    let thinking_a = p.get_thinking_content();
    let text_b = p.get_text_content();
    let usage_b = p.get_usage();
    let thinking_b = p.get_thinking_content();
    assert_eq!(text_a, text_b);
    assert_eq!(usage_a, usage_b);
    assert_eq!(thinking_a, thinking_b);
    // A repeated terminal frame leaves the state exactly as it was.
    assert_eq!(p.process_sse_line("data: {\"type\":\"message_stop\"}"), Ok(true));
    assert_eq!(p.get_text_content(), text_a);
    assert_eq!(p.get_usage(), usage_a);
}

#[test]
fn text_length_never_decreases_across_lines() {
    let mut p = AnthropicStreamProcessor::new();
    let lines = [
        delta_line("a"),
        "data: {\"type\":\"ping\"}".to_string(),
        "data: garbage".to_string(),
        delta_line("bc"),
        "data: {\"type\":\"message_delta\",\"delta\":{},\"usage\":{\"output_tokens\":1}}".to_string(),
        "data: {\"type\":\"message_stop\"}".to_string(),
    ];
    let mut previous = 0usize;
    for line in &lines {
        let _ = p.process_sse_line(line);
        let len = p.get_text_content().len();
        assert!(len >= previous, "text shrank on {line}");
        previous = len;
    }
}

#[test]
fn message_is_reported_as_an_assistant_text_block() {
    let mut p = AnthropicStreamProcessor::new();
    assert!(p.get_message().is_none());
    let _ = p.process_sse_line(&delta_line("hello"));
    let message = p.get_message().expect("text accumulated");
    assert!(matches!(message.role, AnthropicMessageRole::Assistant));
    match message.content {
        MessageContent::Blocks(blocks) => {
            assert_eq!(blocks.len(), 1);
            match &blocks[0] {
                ContentBlock::Text { text } => assert_eq!(text, "hello"),
                other => panic!("unexpected block {other:?}"),
            }
        }
        MessageContent::String(_) => panic!("expected blocks"),
    }
}

#[test]
fn empty_thinking_is_reported_as_absent() {
    let mut p = AnthropicStreamProcessor::new();
    let empty = "data: {\"type\":\"content_block_delta\",\"index\":0,\"delta\":{\"type\":\"thinking_delta\",\"thinking\":\"\"}}";
    let _ = p.process_sse_line(empty);
    let _ = p.process_sse_line(&delta_line("x"));
    let response = p.finalize();
    assert_eq!(response.thinking, None);
}

#[test]
fn stop_without_start_usage_creates_output_only_usage() {
    let mut p = AnthropicStreamProcessor::new();
    let _ = p.process_sse_line(
        "data: {\"type\":\"message_delta\",\"delta\":{},\"usage\":{\"output_tokens\":4}}",
    );
    let _ = p.process_sse_line("data: {\"type\":\"message_stop\"}");
    let response = p.finalize();
    let usage = response.usage.expect("created at terminal");
    assert_eq!(usage.prompt_tokens, 0);
    assert_eq!(usage.completion_tokens, 4);
    assert_eq!(usage.total_tokens, 4);
}
