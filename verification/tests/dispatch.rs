use le_hey_eye_lib::models::ProviderType;
use le_hey_eye_lib::registry::{get_provider, get_supported_providers, resolve, ProviderKind};

#[test]
fn resolve_unknown_provider_reports_the_identifier() {
    let err = resolve("unknown-llm").expect_err("unknown providers resolve to an error");
    assert_eq!(err.provider_id, "unknown-llm");
}

#[test]
fn resolve_known_providers() {
    assert!(matches!(resolve("anthropic"), Ok(ProviderKind::Anthropic(_))));
    assert!(matches!(resolve("cloudflare"), Ok(ProviderKind::Cloudflare(_))));
    assert!(matches!(resolve("Anthropic"), Ok(ProviderKind::Anthropic(_))));
}

#[test]
fn mistral_is_recognized_but_not_implemented() {
    assert_eq!(ProviderType::from_str("mistral"), Some(ProviderType::Mistral));
    assert!(get_provider("mistral").is_none());
    assert!(resolve("mistral").is_err());
}

#[test]
fn provider_type_identifier_roundtrip() {
    for p in [
        ProviderType::Anthropic,
        ProviderType::Cloudflare,
        ProviderType::Mistral,
        ProviderType::OpenAI,
    ] {
        assert_eq!(ProviderType::from_str(p.as_str()), Some(p));
    }
    assert_eq!(ProviderType::from_str("ANTHROPIC"), Some(ProviderType::Anthropic));
    assert_eq!(ProviderType::from_str("CloudFlare"), Some(ProviderType::Cloudflare));
    assert_eq!(ProviderType::from_str("gpt"), None);
}

#[test]
fn supported_providers_are_listed_in_order() {
    assert_eq!(
        get_supported_providers(),
        vec![ProviderType::Cloudflare, ProviderType::Anthropic, ProviderType::Mistral]
    );
}
