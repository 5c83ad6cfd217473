//! The provider-agnostic chat data model.
//!
//! Requests, messages, content blocks and the unified stream result are
//! plain values here; the per-provider wire shapes live in the provider
//! modules and are produced from these by pure adapter functions.
//!
//! Fractional generation parameters (temperature, nucleus sampling and the
//! penalty knobs) are carried as integer thousandths, so that the whole
//! model stays within exactly representable values; the transport layer
//! divides by 1000 when it writes the wire request.

use vstd::prelude::*;

use crate::anthropic::{
    AnthropicModelSettings, AnthropicSystemPrompt, AnthropicThinkingConfig, AnthropicTool,
    AnthropicToolChoice, AnthropicToolChoiceType,
};
use crate::strutil::lower;

verus! {

/// The providers the client knows how to talk to.
#[derive(Debug, Clone, Copy, PartialEq, Eq, Structural)]
pub enum ProviderType {
    Anthropic,
    Cloudflare,
    Mistral,
    OpenAI,
}

/// The provider selected by a (case-insensitive) identifier string, if any.
pub open spec fn provider_of(s: Seq<char>) -> Option<ProviderType> {
    if lower(s) == "anthropic"@ {
        Some(ProviderType::Anthropic)
    } else if lower(s) == "cloudflare"@ {
        Some(ProviderType::Cloudflare)
    } else if lower(s) == "mistral"@ {
        Some(ProviderType::Mistral)
    } else if lower(s) == "openai"@ {
        Some(ProviderType::OpenAI)
    } else {
        None
    }
}

impl ProviderType {
    /// The canonical lowercase identifier of the provider.
    pub fn as_str(&self) -> (r: &'static str)
        ensures
            *self == ProviderType::Anthropic ==> r@ == "anthropic"@,
            *self == ProviderType::Cloudflare ==> r@ == "cloudflare"@,
            *self == ProviderType::Mistral ==> r@ == "mistral"@,
            *self == ProviderType::OpenAI ==> r@ == "openai"@,
    {
        match self {
            ProviderType::Anthropic => "anthropic",
            ProviderType::Cloudflare => "cloudflare",
            ProviderType::Mistral => "mistral",
            ProviderType::OpenAI => "openai",
        }
    }

    /// Parses a provider identifier, ignoring ASCII case.
    pub fn from_str(s: &str) -> (r: Option<Self>)
        ensures
            r == provider_of(s@),
    {
        if crate::strutil::eq_lower(s, "anthropic") {
            Some(ProviderType::Anthropic)
        } else if crate::strutil::eq_lower(s, "cloudflare") {
            Some(ProviderType::Cloudflare)
        } else if crate::strutil::eq_lower(s, "mistral") {
            Some(ProviderType::Mistral)
        } else if crate::strutil::eq_lower(s, "openai") {
            Some(ProviderType::OpenAI)
        } else {
            None
        }
    }
}

/// Who authored a chat message.
#[derive(Debug, Clone, Copy, PartialEq, Eq, Structural)]
pub enum ChatRole {
    System,
    User,
    Assistant,
}

/// An image attachment: an encoding tag (only base64 is in use), a MIME
/// media type, and the encoded payload.
#[derive(Debug, Clone)]
pub struct ImageSource {
    pub source_type: String,
    pub media_type: String,
    pub data: String,
}

/// One typed unit of structured message content.
#[derive(Debug, Clone)]
pub enum ContentItem {
    Text { text: String },
    Image { source: ImageSource },
}

/// Message content: either a bare string or a list of typed blocks.
#[derive(Debug, Clone)]
pub enum ContentType {
    PlainText(String),
    StructuredContent(Vec<ContentItem>),
}

/// An image payload reduced to its media type and encoded data.
#[derive(Debug, Clone)]
pub struct Image {
    pub media_type: String,
    pub data: String,
}

/// Content in the shape some provider responses use: a text string or an
/// image.
#[derive(Debug, Clone)]
pub enum AnthropicContentType {
    Text(String),
    Image(Image),
}

/// One message of a conversation.
#[derive(Debug, Clone)]
pub struct ChatMessage {
    pub role: ChatRole,
    pub content: ContentType,
}

/// The provider-agnostic chat request.
///
/// Fractional parameters (`temperature`, `top_p`, the penalties) are integer
/// thousandths of their wire value.
#[derive(Debug, Clone)]
pub struct ChatRequest {
    pub messages: Vec<ChatMessage>,
    pub system: AnthropicSystemPrompt,
    pub max_tokens: Option<u32>,
    pub model: Option<String>,
    pub stream: Option<bool>,
    pub temperature: Option<u32>,
    pub thinking: Option<AnthropicThinkingConfig>,
    pub top_p: Option<u32>,
    pub top_k: Option<i32>,
    pub seed: Option<u32>,
    pub repetition_penalty: Option<i32>,
    pub frequency_penalty: Option<i32>,
    pub presence_penalty: Option<i32>,
    pub lora: Option<String>,
    pub tools: Option<Vec<AnthropicTool>>,
    pub tool_choice: Option<AnthropicToolChoice>,
}

/// The unified token-usage record attached to a finished stream.
#[derive(Debug, Clone, Copy, PartialEq, Eq, Structural)]
pub struct TokenUsage {
    pub prompt_tokens: u64,
    pub completion_tokens: u64,
    pub total_tokens: u64,
}

impl TokenUsage {
    /// The accounting identity the response adapters guarantee: the total is
    /// the sum of prompt and completion tokens (saturated at `u64::MAX`).
    pub open spec fn well_formed(self) -> bool {
        if self.prompt_tokens + self.completion_tokens <= u64::MAX {
            self.total_tokens == self.prompt_tokens + self.completion_tokens
        } else {
            self.total_tokens == u64::MAX
        }
    }
}

/// The usage record over prompt and completion counts, with the total
/// recomputed as their sum (saturating at the machine limit).
pub open spec fn spec_token_usage(prompt: u64, completion: u64) -> TokenUsage {
    TokenUsage {
        prompt_tokens: prompt,
        completion_tokens: completion,
        total_tokens: if prompt + completion <= u64::MAX {
            (prompt + completion) as u64
        } else {
            u64::MAX
        },
    }
}

/// Builds a usage record from prompt and completion counts, recomputing the
/// total so that [`TokenUsage::well_formed`] holds.
pub fn make_token_usage(prompt: u64, completion: u64) -> (r: TokenUsage)
    ensures
        r == spec_token_usage(prompt, completion),
        r.well_formed(),
{
    let total = if prompt <= u64::MAX - completion {
        prompt + completion
    } else {
        u64::MAX
    };
    TokenUsage { prompt_tokens: prompt, completion_tokens: completion, total_tokens: total }
}

/// The unified final result of one streamed exchange.
#[derive(Debug, Clone)]
pub struct StreamResponse {
    pub response: String,
    pub usage: Option<TokenUsage>,
    pub thinking: Option<String>,
}

/// Generation settings shared by every provider.
///
/// Fractional fields are integer thousandths, as in [`ChatRequest`].
#[derive(Debug, Clone)]
pub struct BaseModelSettings {
    pub provider: ProviderType,
    pub model: String,
    pub temperature: Option<u32>,
    pub max_tokens: Option<u32>,
    pub stream: Option<bool>,
    pub top_p: Option<u32>,
    pub frequency_penalty: Option<i32>,
    pub presence_penalty: Option<i32>,
    pub seed: Option<u32>,
}

impl BaseModelSettings {
    /// Settings for `model` on `provider` with every knob unset.
    pub fn new(provider: ProviderType, model: String) -> (r: Self)
        ensures
            r.provider == provider,
            r.model@ == model@,
            r.temperature is None,
            r.max_tokens is None,
            r.stream is None,
            r.top_p is None,
            r.frequency_penalty is None,
            r.presence_penalty is None,
            r.seed is None,
    {
        BaseModelSettings {
            provider,
            model,
            temperature: None,
            max_tokens: None,
            stream: None,
            top_p: None,
            frequency_penalty: None,
            presence_penalty: None,
            seed: None,
        }
    }
}

/// Per-provider model settings.
#[derive(Debug, Clone)]
pub enum ModelSettings {
    Anthropic(AnthropicModelSettings),
    Base(BaseModelSettings),
}

impl ModelSettings {
    /// The provider these settings target.
    pub fn provider_type(&self) -> (r: ProviderType)
        ensures
            r == match *self {
                ModelSettings::Anthropic(_) => ProviderType::Anthropic,
                ModelSettings::Base(ref s) => s.provider,
            },
    {
        match self {
            ModelSettings::Anthropic(_) => ProviderType::Anthropic,
            ModelSettings::Base(settings) => settings.provider,
        }
    }

    /// The configured model name.
    pub fn model_name(&self) -> (r: &str)
        ensures
            r@ == match *self {
                ModelSettings::Anthropic(ref s) => s.base.model@,
                ModelSettings::Base(ref s) => s.model@,
            },
    {
        match self {
            ModelSettings::Anthropic(settings) => settings.base.model.as_str(),
            ModelSettings::Base(settings) => settings.model.as_str(),
        }
    }

    /// Replaces the model name.
    pub fn with_model(self, model: String) -> (r: Self)
        ensures
            match r {
                ModelSettings::Anthropic(s) => self matches ModelSettings::Anthropic(p)
                    && s == (AnthropicModelSettings { base: (BaseModelSettings { model, ..p.base }), ..p }),
                ModelSettings::Base(s) => self matches ModelSettings::Base(p)
                    && s == (BaseModelSettings { model, ..p }),
            },
    {
        match self {
            ModelSettings::Anthropic(mut settings) => {
                settings.base.model = model;
                ModelSettings::Anthropic(settings)
            },
            ModelSettings::Base(mut settings) => {
                settings.model = model;
                ModelSettings::Base(settings)
            },
        }
    }

    /// Sets the sampling temperature, in thousandths.
    pub fn with_temperature(self, temperature: u32) -> (r: Self)
        ensures
            match r {
                ModelSettings::Anthropic(s) => self matches ModelSettings::Anthropic(p)
                    && s == (AnthropicModelSettings {
                    base: (BaseModelSettings { temperature: Some(temperature), ..p.base }),
                    ..p
                }),
                ModelSettings::Base(s) => self matches ModelSettings::Base(p)
                    && s == (BaseModelSettings { temperature: Some(temperature), ..p }),
            },
    {
        match self {
            ModelSettings::Anthropic(mut settings) => {
                settings.base.temperature = Some(temperature);
                ModelSettings::Anthropic(settings)
            },
            ModelSettings::Base(mut settings) => {
                settings.temperature = Some(temperature);
                ModelSettings::Base(settings)
            },
        }
    }

    /// Sets the response length cap.
    pub fn with_max_tokens(self, max_tokens: u32) -> (r: Self)
        ensures
            match r {
                ModelSettings::Anthropic(s) => self matches ModelSettings::Anthropic(p)
                    && s == (AnthropicModelSettings {
                    base: (BaseModelSettings { max_tokens: Some(max_tokens), ..p.base }),
                    ..p
                }),
                ModelSettings::Base(s) => self matches ModelSettings::Base(p)
                    && s == (BaseModelSettings { max_tokens: Some(max_tokens), ..p }),
            },
    {
        match self {
            ModelSettings::Anthropic(mut settings) => {
                settings.base.max_tokens = Some(max_tokens);
                ModelSettings::Anthropic(settings)
            },
            ModelSettings::Base(mut settings) => {
                settings.max_tokens = Some(max_tokens);
                ModelSettings::Base(settings)
            },
        }
    }

    /// Sets the streaming flag kept in the settings record.
    pub fn with_stream(self, enabled: bool) -> (r: Self)
        ensures
            match r {
                ModelSettings::Anthropic(s) => self matches ModelSettings::Anthropic(p)
                    && s == (AnthropicModelSettings {
                    base: (BaseModelSettings { stream: Some(enabled), ..p.base }),
                    ..p
                }),
                ModelSettings::Base(s) => self matches ModelSettings::Base(p)
                    && s == (BaseModelSettings { stream: Some(enabled), ..p }),
            },
    {
        match self {
            ModelSettings::Anthropic(mut settings) => {
                settings.base.stream = Some(enabled);
                ModelSettings::Anthropic(settings)
            },
            ModelSettings::Base(mut settings) => {
                settings.stream = Some(enabled);
                ModelSettings::Base(settings)
            },
        }
    }

    /// Enables extended reasoning; only Anthropic settings support it.
    pub fn with_thinking(self, budget_tokens: u32) -> (r: Result<Self, String>)
        ensures
            self matches ModelSettings::Base(_) ==> r is Err,
            self matches ModelSettings::Anthropic(p) ==> {
                &&& (r is Ok <==> (budget_tokens >= 1024 && match p.base.max_tokens {
                    Some(m) => budget_tokens < m,
                    None => true,
                }))
                &&& r matches Ok(s) ==> s == ModelSettings::Anthropic(
                    AnthropicModelSettings {
                        thinking: Some(
                            AnthropicThinkingConfig {
                                thinking_type: crate::anthropic::AnthropicThinkingType::Enabled,
                                budget_tokens,
                            },
                        ),
                        ..p
                    },
                )
            },
    {
        match self {
            ModelSettings::Anthropic(settings) => {
                let updated = settings.with_thinking(budget_tokens)?;
                Ok(ModelSettings::Anthropic(updated))
            },
            _ => Err(String::from_str("Thinking is only supported by Anthropic models")),
        }
    }

    /// Replaces the tool list; only Anthropic settings support tools.
    pub fn with_tools(self, tools: Vec<AnthropicTool>) -> (r: Result<Self, String>)
        ensures
            self matches ModelSettings::Base(_) ==> r is Err,
            self matches ModelSettings::Anthropic(p) ==> r matches Ok(s) && s
                == ModelSettings::Anthropic(AnthropicModelSettings { tools: Some(tools), ..p }),
    {
        match self {
            ModelSettings::Anthropic(settings) => Ok(
                ModelSettings::Anthropic(settings.with_tools(tools)),
            ),
            _ => Err(String::from_str("Tools are only supported by Anthropic models")),
        }
    }

    /// Lets the model pick tools automatically; only Anthropic settings
    /// support a tool choice.
    pub fn with_auto_tool_choice(self) -> (r: Result<Self, String>)
        ensures
            self matches ModelSettings::Base(_) ==> r is Err,
            self matches ModelSettings::Anthropic(p) ==> r matches Ok(s) && s
                == ModelSettings::Anthropic(
                AnthropicModelSettings {
                    tool_choice: Some(
                        AnthropicToolChoice {
                            choice_type: AnthropicToolChoiceType::Auto,
                            disable_parallel_tool_use: None,
                        },
                    ),
                    ..p
                },
            ),
    {
        match self {
            ModelSettings::Anthropic(settings) => Ok(
                ModelSettings::Anthropic(settings.with_auto_tool_choice()),
            ),
            _ => Err(String::from_str("Tool choice is only supported by Anthropic models")),
        }
    }

    /// Writes these settings into a request: the model name always, the
    /// Anthropic-only fields (thinking, tools, tool choice) as configured,
    /// and each generation knob only where the settings hold a value.
    pub fn apply_to_request(self, request: &mut ChatRequest)
        ensures
            match self {
                ModelSettings::Anthropic(s) => *final(request) == (ChatRequest {
                    model: Some(s.base.model),
                    thinking: s.thinking,
                    tools: s.tools,
                    tool_choice: s.tool_choice,
                    temperature: if s.base.temperature is Some {
                        s.base.temperature
                    } else {
                        old(request).temperature
                    },
                    max_tokens: if s.base.max_tokens is Some {
                        s.base.max_tokens
                    } else {
                        old(request).max_tokens
                    },
                    stream: if s.base.stream is Some {
                        s.base.stream
                    } else {
                        old(request).stream
                    },
                    top_p: if s.base.top_p is Some {
                        s.base.top_p
                    } else {
                        old(request).top_p
                    },
                    ..*old(request)
                }),
                ModelSettings::Base(s) => *final(request) == (ChatRequest {
                    model: Some(s.model),
                    temperature: if s.temperature is Some {
                        s.temperature
                    } else {
                        old(request).temperature
                    },
                    max_tokens: if s.max_tokens is Some {
                        s.max_tokens
                    } else {
                        old(request).max_tokens
                    },
                    stream: if s.stream is Some {
                        s.stream
                    } else {
                        old(request).stream
                    },
                    top_p: if s.top_p is Some {
                        s.top_p
                    } else {
                        old(request).top_p
                    },
                    frequency_penalty: if s.frequency_penalty is Some {
                        s.frequency_penalty
                    } else {
                        old(request).frequency_penalty
                    },
                    presence_penalty: if s.presence_penalty is Some {
                        s.presence_penalty
                    } else {
                        old(request).presence_penalty
                    },
                    seed: if s.seed is Some {
                        s.seed
                    } else {
                        old(request).seed
                    },
                    ..*old(request)
                }),
            },
    {
        match self {
            ModelSettings::Anthropic(settings) => {
                request.model = Some(settings.base.model);
                request.thinking = settings.thinking;
                request.tools = settings.tools;
                request.tool_choice = settings.tool_choice;
                if let Some(temp) = settings.base.temperature {
                    request.temperature = Some(temp);
                }
                if let Some(max_tokens) = settings.base.max_tokens {
                    request.max_tokens = Some(max_tokens);
                }
                if let Some(stream) = settings.base.stream {
                    request.stream = Some(stream);
                }
                if let Some(top_p) = settings.base.top_p {
                    request.top_p = Some(top_p);
                }
            },
            ModelSettings::Base(settings) => {
                request.model = Some(settings.model);
                if let Some(temp) = settings.temperature {
                    request.temperature = Some(temp);
                }
                if let Some(max_tokens) = settings.max_tokens {
                    request.max_tokens = Some(max_tokens);
                }
                if let Some(stream) = settings.stream {
                    request.stream = Some(stream);
                }
                if let Some(top_p) = settings.top_p {
                    request.top_p = Some(top_p);
                }
                if let Some(freq_penalty) = settings.frequency_penalty {
                    request.frequency_penalty = Some(freq_penalty);
                }
                if let Some(pres_penalty) = settings.presence_penalty {
                    request.presence_penalty = Some(pres_penalty);
                }
                if let Some(seed) = settings.seed {
                    request.seed = Some(seed);
                }
            },
        }
    }

    /// Settings are valid when the model name is non-empty.
    pub fn validate(&self) -> (r: Result<(), String>)
        ensures
            r is Ok <==> match *self {
                ModelSettings::Anthropic(ref s) => s.base.model@.len() > 0,
                ModelSettings::Base(ref s) => s.model@.len() > 0,
            },
            r matches Err(e) ==> e@ == "Model name cannot be empty"@,
    {
        let name_len = match self {
            ModelSettings::Anthropic(settings) => settings.base.model.as_str().unicode_len(),
            ModelSettings::Base(settings) => settings.model.as_str().unicode_len(),
        };
        if name_len == 0 {
            Err(String::from_str("Model name cannot be empty"))
        } else {
            Ok(())
        }
    }
}

/// Fresh settings for `model`: the Anthropic shape for Anthropic, the base
/// shape for everyone else.
pub fn create_model_settings(provider: ProviderType, model: String) -> (r: ModelSettings)
    ensures
        provider == ProviderType::Anthropic ==> (r matches ModelSettings::Anthropic(s)
            && s.base.model@ == model@ && s.thinking is None && s.tools is None
            && s.tool_choice is None && s.base.provider == ProviderType::Anthropic
            && s.base.temperature is None && s.base.max_tokens is None && s.base.stream is None
            && s.base.top_p is None && s.base.frequency_penalty is None
            && s.base.presence_penalty is None && s.base.seed is None),
        provider != ProviderType::Anthropic ==> (r matches ModelSettings::Base(s)
            && s.provider == provider && s.model@ == model@ && s.temperature is None
            && s.max_tokens is None && s.stream is None && s.top_p is None
            && s.frequency_penalty is None && s.presence_penalty is None && s.seed is None),
{
    match provider {
        ProviderType::Anthropic => ModelSettings::Anthropic(AnthropicModelSettings::new(model)),
        _ => ModelSettings::Base(BaseModelSettings::new(provider, model)),
    }
}

/// A stored conversation topic, as the persistence collaborator hands it
/// over.
#[derive(Debug, Clone)]
pub struct DbTopic {
    pub id: String,
    pub name: String,
    pub created_at: String,
    pub bg_color: String,
    pub last_accessed_at: String,
}

/// A stored message of a topic.
#[derive(Debug, Clone)]
pub struct DbTopicMessage {
    pub id: String,
    pub topic_id: String,
    pub role: ChatRole,
    pub content: ContentType,
    pub timestamp: String,
    pub tokens_used: Option<i32>,
}

/// A topic as the UI layer consumes it.
#[derive(Debug, Clone)]
pub struct Topic {
    pub id: String,
    pub name: String,
    pub created_at: String,
    pub bg_color: String,
    pub last_accessed_at: String,
}

/// A message of a topic as the UI layer consumes it.
#[derive(Debug, Clone)]
pub struct TopicMessage {
    pub id: String,
    pub topic_id: String,
    pub role: ChatRole,
    pub content: ContentType,
    pub timestamp: String,
    pub tokens_used: Option<i32>,
}

/// What a provider's models support; implemented by each provider's
/// settings type.
pub trait ProviderCapabilities {
    fn supports_streaming(&self) -> bool;

    fn supports_thinking(&self) -> bool;

    fn supports_tools(&self) -> bool;

    fn get_default_model(&self) -> String;

    fn get_available_models(&self) -> Vec<String>;

    fn get_max_tokens_limit(&self) -> u32;
}

} // verus!
