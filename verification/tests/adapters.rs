use le_hey_eye_lib::anthropic::{
    adapt_request, adapt_response, convert_media_type, AnthropicMessage, AnthropicMessageRole,
    AnthropicModelSettings, AnthropicResponse, AnthropicSystemPrompt, AnthropicThinkingConfig,
    AnthropicThinkingType, AnthropicTool, ContentBlock, ImageMediaType, ImageSourceType,
    MessageContent, PropertySchema, ResponseContentBlock, Usage,
};
use le_hey_eye_lib::models::{
    ChatMessage, ChatRequest, ChatRole, ContentItem, ContentType, ImageSource,
};

fn basic_request(messages: Vec<ChatMessage>) -> ChatRequest {
    ChatRequest {
        messages,
        system: AnthropicSystemPrompt::Simple("be brief".to_string()),
        max_tokens: Some(100),
        model: Some("anthropic-small".to_string()),
        stream: Some(false),
        temperature: Some(700),
        thinking: None,
        top_p: None,
        top_k: Some(5),
        seed: None,
        repetition_penalty: None,
        frequency_penalty: None,
        presence_penalty: None,
        lora: None,
        tools: None,
        tool_choice: None,
    }
}

fn text_message(role: ChatRole, text: &str) -> ChatMessage {
    ChatMessage { role, content: ContentType::PlainText(text.to_string()) }
}

#[test]
fn adapt_request_filters_system_and_forces_stream() {
    let request = basic_request(vec![
        text_message(ChatRole::System, "system prompt"),
        text_message(ChatRole::User, "hello"),
        text_message(ChatRole::Assistant, "hi"),
    ]);
    let wire = adapt_request(request);
    assert_eq!(wire.stream, Some(true), "streaming is forced on");
    assert_eq!(wire.messages.len(), 2, "system messages are filtered out");
    assert!(matches!(wire.messages[0].role, AnthropicMessageRole::User));
    assert!(matches!(wire.messages[1].role, AnthropicMessageRole::Assistant));
    assert_eq!(wire.temperature, Some(700));
    assert_eq!(wire.max_tokens, Some(100));
    assert_eq!(wire.top_k, Some(5));
    match &wire.messages[0].content {
        MessageContent::Blocks(blocks) => match &blocks[0] {
            ContentBlock::Text { text } => assert_eq!(text, "hello"),
            other => panic!("unexpected block {other:?}"),
        },
        MessageContent::String(_) => panic!("plain text becomes one text block"),
    }
}

#[test]
fn adapt_request_keeps_thinking_config() {
    let mut request = basic_request(vec![text_message(ChatRole::User, "q")]);
    request.thinking = Some(AnthropicThinkingConfig {
        thinking_type: AnthropicThinkingType::Enabled,
        budget_tokens: 2048,
    });
    let wire = adapt_request(request);
    let thinking = wire.thinking.expect("thinking carried over");
    assert_eq!(thinking.budget_tokens, 2048);
}

#[test]
fn adapt_request_converts_image_items() {
    let items = vec![
        ContentItem::Text { text: "look".to_string() },
        ContentItem::Image {
            source: ImageSource {
                source_type: "base64".to_string(),
                media_type: "image/png".to_string(),
                data: "AAAA".to_string(),
            },
        },
        ContentItem::Image {
            source: ImageSource {
                source_type: "weird".to_string(),
                media_type: "application/x-unknown".to_string(),
                data: "BBBB".to_string(),
            },
        },
    ];
    let request = basic_request(vec![ChatMessage {
        role: ChatRole::User,
        content: ContentType::StructuredContent(items),
    }]);
    let wire = adapt_request(request);
    match &wire.messages[0].content {
        MessageContent::Blocks(blocks) => {
            assert_eq!(blocks.len(), 3);
            match &blocks[1] {
                ContentBlock::Image { source } => {
                    assert!(matches!(source.source_type, ImageSourceType::Base64));
                    assert!(matches!(source.media_type, ImageMediaType::Png));
                    assert_eq!(source.data, "AAAA");
                }
                other => panic!("unexpected block {other:?}"),
            }
            match &blocks[2] {
                ContentBlock::Image { source } => {
                    // Unknown media types fall back to JPEG instead of failing.
                    assert!(matches!(source.media_type, ImageMediaType::Jpeg));
                }
                other => panic!("unexpected block {other:?}"),
            }
        }
        MessageContent::String(_) => panic!("expected blocks"),
    }
}

#[test]
fn convert_media_type_matches_known_types() {
    assert!(matches!(convert_media_type("image/jpeg"), ImageMediaType::Jpeg));
    assert!(matches!(convert_media_type("image/png"), ImageMediaType::Png));
    assert!(matches!(convert_media_type("image/gif"), ImageMediaType::Gif));
    assert!(matches!(convert_media_type("image/webp"), ImageMediaType::Webp));
    assert!(matches!(convert_media_type("text/plain"), ImageMediaType::Jpeg));
}

#[test]
fn adapt_response_joins_text_and_surfaces_first_thinking() {
    let response = AnthropicResponse {
        id: "m1".to_string(),
        message_type: "message".to_string(),
        role: "assistant".to_string(),
        content: vec![
            ResponseContentBlock::Text { text: "Hello".to_string() },
            ResponseContentBlock::Thinking { thinking: "hmm".to_string() },
            ResponseContentBlock::Text { text: " world".to_string() },
            ResponseContentBlock::Thinking { thinking: "ignored".to_string() },
        ],
        model: "anthropic-small".to_string(),
        stop_reason: None,
        stop_sequence: None,
        usage: Some(Usage {
            input_tokens: 11,
            output_tokens: 31,
            cache_creation_input_tokens: None,
            cache_read_input_tokens: None,
        }),
    };
    let unified = adapt_response(response);
    assert_eq!(unified.response, "Hello world");
    assert_eq!(unified.thinking, Some("hmm".to_string()));
    let usage = unified.usage.unwrap();
    assert_eq!(usage.prompt_tokens, 11);
    assert_eq!(usage.completion_tokens, 31);
    assert_eq!(usage.total_tokens, 42);
}

#[test]
fn with_thinking_validates_budget() {
    let settings = AnthropicModelSettings::new("anthropic-small".to_string());
    assert!(settings.clone().with_thinking(1023).is_err());
    let ok = settings.clone().with_thinking(1024).expect("budget accepted");
    assert_eq!(ok.thinking.unwrap().budget_tokens, 1024);

    let capped = {
        let mut s = AnthropicModelSettings::new("m".to_string());
        s.base.max_tokens = Some(2000);
        s
    };
    assert!(capped.clone().with_thinking(2000).is_err());
    assert!(capped.with_thinking(1999).is_ok());
}

#[test]
fn property_schema_and_tool_builders() {
    let weather = PropertySchema::string("city name".to_string());
    assert_eq!(weather.property_type, "string");
    assert_eq!(weather.description, Some("city name".to_string()));
    assert!(weather.enum_values.is_none());

    let unit = PropertySchema::string_enum(
        "unit".to_string(),
        vec!["celsius".to_string(), "fahrenheit".to_string()],
    );
    assert_eq!(unit.enum_values.as_ref().unwrap().len(), 2);

    let tool = AnthropicTool::new(
        "get_weather".to_string(),
        "weather lookup".to_string(),
        vec![("city".to_string(), weather)],
        Some(vec!["city".to_string()]),
    );
    assert_eq!(tool.name, "get_weather");
    assert_eq!(tool.input_schema.schema_type, "object");
    assert_eq!(tool.input_schema.properties.len(), 1);
}

#[test]
fn create_anthropic_message_converts_roles() {
    let m: AnthropicMessage = le_hey_eye_lib::anthropic::create_anthropic_message(
        ChatRole::User,
        &ContentType::PlainText("x".to_string()),
    );
    assert!(matches!(m.role, AnthropicMessageRole::User));
}
