//! Provider dispatch.
//!
//! The provider set is small and fixed, so dispatch is a closed tagged
//! union resolved by exact identifier match: no open-ended virtual
//! dispatch.  Unknown identifiers are a caller error, reported as a value,
//! never a panic.

use vstd::prelude::*;

use crate::anthropic::AnthropicProvider;
use crate::cloudflare::CloudflareProvider;
use crate::models::{provider_of, ProviderType};

verus! {

/// Something that can serve chat requests under a stable identifier.
pub trait LLMProvider {
    fn provider_id(&self) -> &'static str;
}

impl LLMProvider for AnthropicProvider {
    fn provider_id(&self) -> (r: &'static str)
        ensures
            r@ == "anthropic"@,
    {
        "anthropic"
    }
}

impl LLMProvider for CloudflareProvider {
    fn provider_id(&self) -> (r: &'static str)
        ensures
            r@ == "cloudflare"@,
    {
        "cloudflare"
    }
}

/// The closed set of provider implementations.
#[derive(Debug, Clone)]
pub enum ProviderKind {
    Anthropic(AnthropicProvider),
    Cloudflare(CloudflareProvider),
}

/// The provider implementation for an identifier: Anthropic and Cloudflare
/// are implemented; Mistral is recognized by the model but has no streaming
/// implementation yet, and unknown identifiers resolve to nothing.
pub fn get_provider(provider_id: &str) -> (r: Option<ProviderKind>)
    ensures
        provider_of(provider_id@) == Some(ProviderType::Anthropic) <==> r matches Some(
            ProviderKind::Anthropic(_),
        ),
        provider_of(provider_id@) == Some(ProviderType::Cloudflare) <==> r matches Some(
            ProviderKind::Cloudflare(_),
        ),
        r is Some <==> (provider_of(provider_id@) == Some(ProviderType::Anthropic)
            || provider_of(provider_id@) == Some(ProviderType::Cloudflare)),
{
    match ProviderType::from_str(provider_id) {
        Some(ProviderType::Anthropic) => Some(ProviderKind::Anthropic(AnthropicProvider {})),
        Some(ProviderType::Cloudflare) => Some(ProviderKind::Cloudflare(CloudflareProvider {})),
        _ => None,
    }
}

/// The error returned for identifiers no implemented provider answers to.
#[derive(Debug, Clone)]
pub struct UnsupportedProviderError {
    pub provider_id: String,
}

/// Resolves a provider identifier to its implementation, or reports the
/// identifier back as unsupported.  Never panics.
pub fn resolve(provider_id: &str) -> (r: Result<ProviderKind, UnsupportedProviderError>)
    ensures
        r is Ok <==> (provider_of(provider_id@) == Some(ProviderType::Anthropic)
            || provider_of(provider_id@) == Some(ProviderType::Cloudflare)),
        r matches Ok(ProviderKind::Anthropic(_)) <==> provider_of(provider_id@) == Some(
            ProviderType::Anthropic,
        ),
        r matches Ok(ProviderKind::Cloudflare(_)) <==> provider_of(provider_id@) == Some(
            ProviderType::Cloudflare,
        ),
        r matches Err(e) ==> e.provider_id@ == provider_id@,
{
    match get_provider(provider_id) {
        Some(kind) => Ok(kind),
        None => Err(
            UnsupportedProviderError { provider_id: String::from_str(provider_id) },
        ),
    }
}

/// The providers the command surface reports as selectable.
pub fn get_supported_providers() -> (r: Vec<ProviderType>)
    ensures
        r@ == seq![ProviderType::Cloudflare, ProviderType::Anthropic, ProviderType::Mistral],
{
    let mut providers: Vec<ProviderType> = Vec::new();
    providers.push(ProviderType::Cloudflare);
    providers.push(ProviderType::Anthropic);
    providers.push(ProviderType::Mistral);
    proof {
        assert(providers@ =~= seq![
            ProviderType::Cloudflare,
            ProviderType::Anthropic,
            ProviderType::Mistral,
        ]);
    }
    providers
}

} // verus!
