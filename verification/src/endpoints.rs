//! Provider endpoint URLs and template substitution.
//!
//! Endpoint templates carry `{name}` placeholders; [`format_endpoint`]
//! substitutes them from a parameter list.  [`spec_replace`] is the
//! non-overlapping, left-to-right replacement the substitution is proved
//! against.

use vstd::prelude::*;

use crate::models::{ChatRequest, ProviderType};
use crate::strutil::str_eq;

verus! {

/// The endpoint templates of one provider: where chat requests go, and
/// where the model catalogue lives if the provider has one.
#[derive(Debug, Clone)]
pub struct ProviderEndpoints {
    pub api_url: String,
    pub models_url: Option<String>,
}

/// Non-overlapping, left-to-right replacement of `pat` by `rep` in `s`.
/// An empty pattern never matches.
pub open spec fn spec_replace(s: Seq<char>, pat: Seq<char>, rep: Seq<char>) -> Seq<char>
    decreases s.len(),
{
    if pat.len() == 0 || s.len() < pat.len() {
        s
    } else if s.take(pat.len() as int) == pat {
        rep + spec_replace(s.skip(pat.len() as int), pat, rep)
    } else {
        seq![s[0]] + spec_replace(s.drop_first(), pat, rep)
    }
}

/// `url` with each `{key}` placeholder replaced by its value, applied in
/// parameter order.
pub open spec fn spec_format(url: Seq<char>, params: Seq<(String, String)>) -> Seq<char>
    decreases params.len(),
{
    if params.len() == 0 {
        url
    } else {
        spec_format(
            spec_replace(url, seq!['{'] + params.first().0@ + seq!['}'], params.first().1@),
            params.drop_first(),
        )
    }
}

/// Whether `p` occurs in `s` at position `i`.
fn match_at(s: &str, i: usize, p: &str) -> (r: bool)
    requires
        i + p@.len() <= s@.len(),
        s@.len() <= usize::MAX,
    ensures
        r == (s@.subrange(i as int, i + p@.len()) == p@),
{
    let pn = p.unicode_len();
    let mut j: usize = 0;
    while j < pn
        invariant
            j <= pn,
            pn == p@.len(),
            i + pn <= s@.len(),
            s@.len() <= usize::MAX,
            forall|k: int| 0 <= k < j ==> s@[i + k] == p@[k],
        decreases pn - j,
    {
        if s.get_char(i + j) != p.get_char(j) {
            proof {
                assert(s@.subrange(i as int, i + p@.len())[j as int] != p@[j as int]);
            }
            return false;
        }
        j += 1;
    }
    proof {
        assert(s@.subrange(i as int, i + p@.len()) =~= p@);
    }
    true
}

/// Replaces every non-overlapping occurrence of `pat` in `s` by `rep`,
/// scanning left to right.
pub fn replace_all(s: &str, pat: &str, rep: &str) -> (r: String)
    ensures
        r@ == spec_replace(s@, pat@, rep@),
{
    let n = s.unicode_len();
    let pn = pat.unicode_len();
    let mut out = String::new();
    if pn == 0 {
        let whole = s.substring_char(0, n);
        out.append(whole);
        proof {
            assert(s@.subrange(0, n as int) =~= s@);
        }
        return out;
    }
    if pn > n {
        let whole = s.substring_char(0, n);
        out.append(whole);
        proof {
            assert(s@.subrange(0, n as int) =~= s@);
        }
        return out;
    }
    let mut i: usize = 0;
    let mut seg_start: usize = 0;
    proof {
        assert(s@.skip(0) =~= s@);
        assert(s@.subrange(0, 0) =~= Seq::<char>::empty());
        assert(out@ + s@.subrange(0, 0) + spec_replace(s@.skip(0), pat@, rep@) =~= spec_replace(
            s@,
            pat@,
            rep@,
        ));
    }
    while i <= n - pn
        invariant
            pn >= 1,
            pn <= n,
            seg_start <= i <= n,
            n == s@.len(),
            pn == pat@.len(),
            spec_replace(s@, pat@, rep@) == out@ + s@.subrange(seg_start as int, i as int)
                + spec_replace(s@.skip(i as int), pat@, rep@),
        decreases n - i,
    {
        let ghost tail = s@.skip(i as int);
        proof {
            assert(tail.take(pn as int) =~= s@.subrange(i as int, i + pn));
        }
        if match_at(s, i, pat) {
            let seg = s.substring_char(seg_start, i);
            out.append(seg);
            out.append(rep);
            proof {
                assert(tail.skip(pn as int) =~= s@.skip(i + pn));
                assert(spec_replace(tail, pat@, rep@) == rep@ + spec_replace(
                    s@.skip(i + pn),
                    pat@,
                    rep@,
                ));
                assert(s@.subrange(i + pn as int, i + pn as int) =~= Seq::<char>::empty());
            }
            i += pn;
            seg_start = i;
            proof {
                assert(spec_replace(s@, pat@, rep@) =~= out@ + s@.subrange(
                    seg_start as int,
                    i as int,
                ) + spec_replace(s@.skip(i as int), pat@, rep@));
            }
        } else {
            proof {
                assert(tail.len() >= pn);
                assert(tail.take(pn as int) != pat@);
                assert(spec_replace(tail, pat@, rep@) == seq![tail[0]] + spec_replace(
                    tail.drop_first(),
                    pat@,
                    rep@,
                ));
                assert(tail.drop_first() =~= s@.skip(i as int + 1));
                assert(s@.subrange(seg_start as int, i as int + 1) =~= s@.subrange(
                    seg_start as int,
                    i as int,
                ).push(tail[0]));
                assert(out@ + s@.subrange(seg_start as int, i as int + 1) + spec_replace(
                    s@.skip(i as int + 1),
                    pat@,
                    rep@,
                ) =~= out@ + s@.subrange(seg_start as int, i as int) + (seq![tail[0]]
                    + spec_replace(s@.skip(i as int + 1), pat@, rep@)));
            }
            i += 1;
        }
    }
    let seg = s.substring_char(seg_start, n);
    out.append(seg);
    proof {
        assert(spec_replace(s@.skip(i as int), pat@, rep@) == s@.skip(i as int));
        assert(out@ =~= spec_replace(s@, pat@, rep@)) by {
            assert(s@.subrange(seg_start as int, i as int) + s@.skip(i as int) =~= s@.subrange(
                seg_start as int,
                n as int,
            ));
        }
    }
    out
}

/// Substitutes `{key}` placeholders in `url` from `params`, in order;
/// without parameters the template is returned unchanged.
pub fn format_endpoint(url: &str, params: Option<&Vec<(String, String)>>) -> (r: String)
    ensures
        match params {
            Some(ps) => r@ == spec_format(url@, ps@),
            None => r@ == url@,
        },
{
    match params {
        None => {
            let n = url.unicode_len();
            let whole = url.substring_char(0, n);
            proof {
                assert(url@.subrange(0, url@.len() as int) =~= url@);
            }
            String::from_str(whole)
        },
        Some(ps) => {
            let mut current = String::from_str(url);
            let mut i: usize = 0;
            proof {
                assert(ps@.skip(0) =~= ps@);
            }
            while i < ps.len()
                invariant
                    i <= ps.len(),
                    spec_format(url@, ps@) == spec_format(current@, ps@.skip(i as int)),
                decreases ps.len() - i,
            {
                let mut pat = String::from_str("{");
                pat.append(ps[i].0.as_str());
                pat.append("}");
                proof {
                    reveal_strlit("{");
                    reveal_strlit("}");
                    assert(pat@ =~= seq!['{'] + ps@[i as int].0@ + seq!['}']);
                }
                let replaced = replace_all(current.as_str(), pat.as_str(), ps[i].1.as_str());
                proof {
                    assert(ps@.skip(i as int).first() == ps@[i as int]);
                    assert(ps@.skip(i as int).drop_first() =~= ps@.skip(i as int + 1));
                }
                current = replaced;
                i += 1;
            }
            proof {
                assert(ps@.skip(ps@.len() as int) =~= Seq::<(String, String)>::empty());
            }
            current
        },
    }
}

/// The endpoint templates for a provider identifier; unknown identifiers
/// are a caller error, reported as `Err` naming the identifier.
pub fn get_provider_endpoints(provider_id: &str) -> (r: Result<ProviderEndpoints, String>)
    ensures
        provider_id@ == "cloudflare"@ ==> (r matches Ok(e)
            && e.api_url@ == "https://api.cloudflare.com/client/v4/accounts/{account_id}/ai/run/{model}"@
            && (e.models_url matches Some(m)
            && m@ == "https://api.cloudflare.com/client/v4/accounts/{account_id}/ai/models"@)),
        provider_id@ == "anthropic"@ ==> (r matches Ok(e)
            && e.api_url@ == "https://api.anthropic.com/v1/messages"@ && e.models_url is None),
        provider_id@ == "mistral"@ ==> (r matches Ok(e)
            && e.api_url@ == "https://api.mistral.ai/v1/chat/completions"@
            && (e.models_url matches Some(m) && m@ == "https://api.mistral.ai/v1/models"@)),
        provider_id@ != "cloudflare"@ && provider_id@ != "anthropic"@ && provider_id@
            != "mistral"@ ==> (r matches Err(e) && e@ == "Unknown provider: "@ + provider_id@),
{
    proof {
        broadcast use vstd::string::group_string_axioms;

        reveal_strlit("cloudflare");
        reveal_strlit("anthropic");
        reveal_strlit("mistral");
        assert("cloudflare"@.len() == 10);
        assert("anthropic"@.len() == 9);
        assert("mistral"@.len() == 7);
    }
    if str_eq(provider_id, "cloudflare") {
        Ok(
            ProviderEndpoints {
                api_url: String::from_str(
                    "https://api.cloudflare.com/client/v4/accounts/{account_id}/ai/run/{model}",
                ),
                models_url: Some(
                    String::from_str(
                        "https://api.cloudflare.com/client/v4/accounts/{account_id}/ai/models",
                    ),
                ),
            },
        )
    } else if str_eq(provider_id, "anthropic") {
        Ok(
            ProviderEndpoints {
                api_url: String::from_str("https://api.anthropic.com/v1/messages"),
                models_url: None,
            },
        )
    } else if str_eq(provider_id, "mistral") {
        Ok(
            ProviderEndpoints {
                api_url: String::from_str("https://api.mistral.ai/v1/chat/completions"),
                models_url: Some(String::from_str("https://api.mistral.ai/v1/models")),
            },
        )
    } else {
        let mut message = String::from_str("Unknown provider: ");
        message.append(provider_id);
        Err(message)
    }
}

/// The template substituted with `params`, or unchanged without them.
pub open spec fn spec_formatted(template: Seq<char>, params: Option<&Vec<(String, String)>>) -> Seq<
    char,
> {
    match params {
        Some(ps) => spec_format(template, ps@),
        None => template,
    }
}

/// The chat endpoint of a provider, with placeholders substituted.
pub fn get_api_url(provider: &str, params: Option<&Vec<(String, String)>>) -> (r: Result<
    String,
    String,
>)
    ensures
        r is Ok <==> (provider@ == "cloudflare"@ || provider@ == "anthropic"@ || provider@
            == "mistral"@),
        provider@ == "cloudflare"@ ==> (r matches Ok(u) && u@ == spec_formatted(
            "https://api.cloudflare.com/client/v4/accounts/{account_id}/ai/run/{model}"@,
            params,
        )),
        provider@ == "anthropic"@ ==> (r matches Ok(u) && u@ == spec_formatted(
            "https://api.anthropic.com/v1/messages"@,
            params,
        )),
        provider@ == "mistral"@ ==> (r matches Ok(u) && u@ == spec_formatted(
            "https://api.mistral.ai/v1/chat/completions"@,
            params,
        )),
{
    let endpoints = get_provider_endpoints(provider)?;
    Ok(format_endpoint(endpoints.api_url.as_str(), params))
}

/// The model-catalogue endpoint of a provider, with placeholders
/// substituted; `Err` when the provider has none configured.
pub fn get_models_url(provider: &str, params: Option<&Vec<(String, String)>>) -> (r: Result<
    String,
    String,
>)
    ensures
        r is Ok <==> (provider@ == "cloudflare"@ || provider@ == "mistral"@),
        provider@ == "cloudflare"@ ==> (r matches Ok(u) && u@ == spec_formatted(
            "https://api.cloudflare.com/client/v4/accounts/{account_id}/ai/models"@,
            params,
        )),
        provider@ == "mistral"@ ==> (r matches Ok(u) && u@ == spec_formatted(
            "https://api.mistral.ai/v1/models"@,
            params,
        )),
        provider@ == "anthropic"@ ==> (r matches Err(e) && e@ == "Provider "@ + provider@
            + " doesn't have a models URL configured"@),
{
    let endpoints = get_provider_endpoints(provider)?;
    match endpoints.models_url {
        Some(url) => Ok(format_endpoint(url.as_str(), params)),
        None => {
            let mut message = String::from_str("Provider ");
            message.append(provider);
            message.append(" doesn't have a models URL configured");
            Err(message)
        },
    }
}

/// The schema endpoint of one model: the models URL followed by
/// `/schema?model=` and the model identifier.
pub fn get_model_schema_url(
    provider: &str,
    params: Option<&Vec<(String, String)>>,
    model: &str,
) -> (r: Result<String, String>)
    ensures
        r is Ok <==> (provider@ == "cloudflare"@ || provider@ == "mistral"@),
        provider@ == "cloudflare"@ ==> (r matches Ok(u) && u@ == spec_formatted(
            "https://api.cloudflare.com/client/v4/accounts/{account_id}/ai/models"@,
            params,
        ) + "/schema?model="@ + model@),
        provider@ == "mistral"@ ==> (r matches Ok(u) && u@ == spec_formatted(
            "https://api.mistral.ai/v1/models"@,
            params,
        ) + "/schema?model="@ + model@),
{
    let models_url = get_models_url(provider, params)?;
    let mut url = models_url;
    url.append("/schema?model=");
    url.append(model);
    Ok(url)
}

/// Prepares a unified request for one provider: providers that carry the
/// model inline get it written into the request; Cloudflare instead gets a
/// `{model}` URL parameter.
pub fn prepare_request_for_provider(
    provider: &ProviderType,
    model: &str,
    request: ChatRequest,
) -> (r: (ChatRequest, Option<Vec<(String, String)>>))
    ensures
        *provider == ProviderType::Cloudflare ==> (r.0 == request && (r.1 matches Some(ps)
            && ps@.len() == 1 && ps@[0].0@ == "model"@ && ps@[0].1@ == model@)),
        *provider == ProviderType::Anthropic || *provider == ProviderType::Mistral ==> ((
        r.0 matches ChatRequest { model: Some(m), .. } && m@ == model@) && r.1 is None
            && r.0 == (ChatRequest { model: r.0.model, ..request })),
        *provider == ProviderType::OpenAI ==> r.0 == request && r.1 is None,
{
    match provider {
        ProviderType::Anthropic | ProviderType::Mistral => {
            let mut req = request;
            req.model = Some(String::from_str(model));
            (req, None)
        },
        ProviderType::Cloudflare => {
            let mut params: Vec<(String, String)> = Vec::new();
            params.push((String::from_str("model"), String::from_str(model)));
            (request, Some(params))
        },
        ProviderType::OpenAI => (request, None),
    }
}

} // verus!
