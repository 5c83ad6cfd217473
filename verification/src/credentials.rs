//! Credential records and store keys.
//!
//! The encrypted credential store itself is an external collaborator; the
//! library only defines the per-provider credential shapes and the exact
//! store key each provider uses.

use vstd::prelude::*;

use crate::strutil::str_eq;

verus! {

/// Cloudflare needs an account identifier alongside the API token.
#[derive(Debug, Clone)]
pub struct CloudflareCredentials {
    pub account_id: String,
    pub api_token: String,
}

/// Anthropic authenticates with a bare API key.
#[derive(Debug, Clone)]
pub struct AnthropicCredentials {
    pub api_key: String,
}

/// Mistral authenticates with a bare API key.
#[derive(Debug, Clone)]
pub struct MistralCredentials {
    pub api_key: String,
}

/// Whether `s` is a provider identifier with a credential store key.
pub open spec fn has_credentials_key(s: Seq<char>) -> bool {
    s == "cloudflare"@ || s == "anthropic"@ || s == "mistral"@
}

/// The credential store key of a provider.  Identifiers without a key are
/// excluded up front: the original surface treats them as unreachable.
pub fn get_credentials_key(provider_id: &str) -> (r: &'static str)
    requires
        has_credentials_key(provider_id@),
    ensures
        provider_id@ == "cloudflare"@ ==> r@ == "CLOUDFLARE_CREDENTIALS"@,
        provider_id@ == "anthropic"@ ==> r@ == "ANTHROPIC_CREDENTIALS"@,
        provider_id@ == "mistral"@ ==> r@ == "MISTRAL_CREDENTIALS"@,
{
    proof {
        broadcast use vstd::string::group_string_axioms;

        reveal_strlit("cloudflare");
        reveal_strlit("anthropic");
        reveal_strlit("mistral");
        assert("cloudflare"@.len() == 10);
        assert("anthropic"@.len() == 9);
        assert("mistral"@.len() == 7);
    }
    if str_eq(provider_id, "cloudflare") {
        "CLOUDFLARE_CREDENTIALS"
    } else if str_eq(provider_id, "anthropic") {
        "ANTHROPIC_CREDENTIALS"
    } else {
        "MISTRAL_CREDENTIALS"
    }
}

} // verus!
