use le_hey_eye_lib::anthropic::AnthropicSystemPrompt;
use le_hey_eye_lib::models::{
    create_model_settings, make_token_usage, ChatRequest, ModelSettings, ProviderType,
};

fn empty_request() -> ChatRequest {
    ChatRequest {
        messages: vec![],
        system: AnthropicSystemPrompt::Simple(String::new()),
        max_tokens: None,
        model: None,
        stream: None,
        temperature: None,
        thinking: None,
        top_p: None,
        top_k: None,
        seed: None,
        repetition_penalty: None,
        frequency_penalty: None,
        presence_penalty: None,
        lora: None,
        tools: None,
        tool_choice: None,
    }
}

#[test]
fn create_settings_picks_the_provider_shape() {
    let a = create_model_settings(ProviderType::Anthropic, "anthropic-small".to_string());
    assert!(matches!(a, ModelSettings::Anthropic(_)));
    assert_eq!(a.provider_type(), ProviderType::Anthropic);
    assert_eq!(a.model_name(), "anthropic-small");

    let b = create_model_settings(ProviderType::Mistral, "mistral-small".to_string());
    assert!(matches!(b, ModelSettings::Base(_)));
    assert_eq!(b.provider_type(), ProviderType::Mistral);
}

#[test]
fn builders_update_the_base_settings() {
    let s = create_model_settings(ProviderType::Cloudflare, "llama".to_string())
        .with_model("llama-3".to_string())
        .with_temperature(500)
        .with_max_tokens(256)
        .with_stream(true);
    assert_eq!(s.model_name(), "llama-3");
    match &s {
        ModelSettings::Base(base) => {
            assert_eq!(base.temperature, Some(500));
            assert_eq!(base.max_tokens, Some(256));
            assert_eq!(base.stream, Some(true));
        }
        ModelSettings::Anthropic(_) => panic!("cloudflare settings use the base shape"),
    }
}

#[test]
fn thinking_and_tools_are_anthropic_only() {
    let base = create_model_settings(ProviderType::Cloudflare, "llama".to_string());
    assert!(base.clone().with_thinking(2048).is_err());
    assert!(base.clone().with_tools(vec![]).is_err());
    assert!(base.with_auto_tool_choice().is_err());

    let anthropic = create_model_settings(ProviderType::Anthropic, "anthropic-small".to_string());
    assert!(anthropic.with_thinking(2048).is_ok());
}

#[test]
fn apply_to_request_overrides_only_configured_knobs() {
    let mut request = empty_request();
    request.temperature = Some(900);
    request.seed = Some(42);

    let settings = create_model_settings(ProviderType::Mistral, "mistral-small".to_string())
        .with_max_tokens(64);
    settings.apply_to_request(&mut request);

    assert_eq!(request.model, Some("mistral-small".to_string()));
    assert_eq!(request.max_tokens, Some(64), "configured knob written");
    assert_eq!(request.temperature, Some(900), "unset knob leaves the request value");
    assert_eq!(request.seed, Some(42));
}

#[test]
fn apply_to_request_anthropic_writes_tool_state() {
    let mut request = empty_request();
    request.tools = None;
    let settings = create_model_settings(ProviderType::Anthropic, "anthropic-small".to_string())
        .with_thinking(4096)
        .unwrap();
    settings.apply_to_request(&mut request);
    assert_eq!(request.model, Some("anthropic-small".to_string()));
    assert_eq!(request.thinking.unwrap().budget_tokens, 4096);
    assert!(request.tools.is_none());
}

#[test]
fn validate_rejects_empty_model_names() {
    let ok = create_model_settings(ProviderType::Anthropic, "anthropic-small".to_string());
    assert!(ok.validate().is_ok());
    let bad = create_model_settings(ProviderType::Anthropic, String::new());
    assert_eq!(bad.validate().unwrap_err(), "Model name cannot be empty");
}

#[test]
fn token_usage_total_is_the_sum() {
    let u = make_token_usage(10, 2);
    assert_eq!(u.total_tokens, 12);
    let saturated = make_token_usage(u64::MAX, 1);
    assert_eq!(saturated.total_tokens, u64::MAX);
}
