use le_hey_eye_lib::credentials::get_credentials_key;
use le_hey_eye_lib::endpoints::{
    format_endpoint, get_api_url, get_model_schema_url, get_models_url, get_provider_endpoints,
    prepare_request_for_provider, replace_all,
};
use le_hey_eye_lib::anthropic::AnthropicSystemPrompt;
use le_hey_eye_lib::models::{ChatRequest, ProviderType};

fn params(pairs: &[(&str, &str)]) -> Vec<(String, String)> {
    pairs.iter().map(|(k, v)| (k.to_string(), v.to_string())).collect()
}

#[test]
fn replace_all_handles_repeated_occurrences() {
    assert_eq!(replace_all("a{x}b{x}c", "{x}", "Y"), "aYbYc");
    assert_eq!(replace_all("nothing here", "{x}", "Y"), "nothing here");
    assert_eq!(replace_all("", "{x}", "Y"), "");
    assert_eq!(replace_all("abc", "", "Y"), "abc");
    // Matches do not overlap: the scan resumes after each replacement.
    assert_eq!(replace_all("aaa", "aa", "Y"), "Ya");
}

#[test]
fn format_endpoint_substitutes_in_order() {
    let url = "https://api.cloudflare.com/client/v4/accounts/{account_id}/ai/run/{model}";
    let ps = params(&[("account_id", "acct-1"), ("model", "@cf/meta/llama-3-8b-instruct")]);
    assert_eq!(
        format_endpoint(url, Some(&ps)),
        "https://api.cloudflare.com/client/v4/accounts/acct-1/ai/run/@cf/meta/llama-3-8b-instruct"
    );
    assert_eq!(format_endpoint(url, None), url);
}

#[test]
fn provider_endpoints_are_exact() {
    let cf = get_provider_endpoints("cloudflare").unwrap();
    assert_eq!(
        cf.api_url,
        "https://api.cloudflare.com/client/v4/accounts/{account_id}/ai/run/{model}"
    );
    let anthropic = get_provider_endpoints("anthropic").unwrap();
    assert_eq!(anthropic.api_url, "https://api.anthropic.com/v1/messages");
    assert!(anthropic.models_url.is_none());
    assert_eq!(
        get_provider_endpoints("nope").unwrap_err(),
        "Unknown provider: nope"
    );
}

#[test]
fn api_url_is_built_per_provider() {
    let ps = params(&[("account_id", "A"), ("model", "M")]);
    assert_eq!(
        get_api_url("cloudflare", Some(&ps)).unwrap(),
        "https://api.cloudflare.com/client/v4/accounts/A/ai/run/M"
    );
    assert_eq!(get_api_url("anthropic", None).unwrap(), "https://api.anthropic.com/v1/messages");
    assert!(get_api_url("unknown", None).is_err());
}

#[test]
fn models_url_is_missing_for_anthropic() {
    assert_eq!(
        get_models_url("anthropic", None).unwrap_err(),
        "Provider anthropic doesn't have a models URL configured"
    );
    assert_eq!(get_models_url("mistral", None).unwrap(), "https://api.mistral.ai/v1/models");
}

#[test]
fn model_schema_url_appends_the_query() {
    assert_eq!(
        get_model_schema_url("mistral", None, "mistral-small").unwrap(),
        "https://api.mistral.ai/v1/models/schema?model=mistral-small"
    );
    assert!(get_model_schema_url("anthropic", None, "m").is_err());
}

#[test]
fn prepare_request_routes_the_model_name() {
    let request = ChatRequest {
        messages: vec![],
        system: AnthropicSystemPrompt::Simple(String::new()),
        max_tokens: None,
        model: None,
        stream: None,
        temperature: None,
        thinking: None,
        top_p: None,
        top_k: None,
        seed: None,
        repetition_penalty: None,
        frequency_penalty: None,
        presence_penalty: None,
        lora: None,
        tools: None,
        tool_choice: None,
    };
    let (req, ps) = prepare_request_for_provider(&ProviderType::Anthropic, "anthropic-small", request.clone());
    assert_eq!(req.model, Some("anthropic-small".to_string()));
    assert!(ps.is_none());

    let (req2, ps2) = prepare_request_for_provider(&ProviderType::Cloudflare, "llama", request);
    assert_eq!(req2.model, None, "cloudflare carries the model in the URL");
    assert_eq!(ps2, Some(vec![("model".to_string(), "llama".to_string())]));
}

#[test]
fn credential_store_keys_are_fixed() {
    assert_eq!(get_credentials_key("cloudflare"), "CLOUDFLARE_CREDENTIALS");
    assert_eq!(get_credentials_key("anthropic"), "ANTHROPIC_CREDENTIALS");
    assert_eq!(get_credentials_key("mistral"), "MISTRAL_CREDENTIALS");
}
