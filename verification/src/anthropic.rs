//! The Anthropic wire format and its adapters.
//!
//! A unified [`ChatRequest`](crate::models::ChatRequest) is turned into an
//! [`AnthropicChatRequest`] by a pure transform: system messages are carried
//! in the dedicated `system` field rather than inline, content items are
//! converted block by block, and streaming is forced on.  The streamed reply
//! is folded back into the unified shape by the stream processor (below) and
//! [`adapt_response`].

use vstd::prelude::*;

use crate::models::{
    BaseModelSettings, ChatMessage, ChatRequest, ChatRole, ContentItem, ContentType,
    ProviderCapabilities, ProviderType, StreamResponse,
};
use crate::strutil::str_eq;

verus! {

/// The Anthropic provider marker.
#[derive(Debug, Clone)]
pub struct AnthropicProvider {}

/// The two roles Anthropic accepts inside `messages`.
#[derive(Debug, Clone, Copy, PartialEq, Eq, Structural)]
pub enum AnthropicMessageRole {
    User,
    Assistant,
}

/// The encoding tag of an image source; only base64 exists on this wire.
#[derive(Debug, Clone, Copy, PartialEq, Eq, Structural)]
pub enum ImageSourceType {
    Base64,
}

/// The image media types the wire accepts.
#[derive(Debug, Clone, Copy, PartialEq, Eq, Structural)]
pub enum ImageMediaType {
    Jpeg,
    Png,
    Gif,
    Webp,
}

/// An image source in wire shape.
#[derive(Debug, Clone)]
pub struct AnthropicImageSource {
    pub source_type: ImageSourceType,
    pub media_type: ImageMediaType,
    pub data: String,
}

/// One content block of a wire message.
#[derive(Debug, Clone)]
pub enum ContentBlock {
    Text { text: String },
    Image { source: AnthropicImageSource },
}

/// Wire message content: a bare string or a list of blocks.
#[derive(Debug, Clone)]
pub enum MessageContent {
    String(String),
    Blocks(Vec<ContentBlock>),
}

/// One message of the wire request.
#[derive(Debug, Clone)]
pub struct AnthropicMessage {
    pub role: AnthropicMessageRole,
    pub content: MessageContent,
}

/// The tool-choice modes supported.
#[derive(Debug, Clone, Copy, PartialEq, Eq, Structural)]
pub enum AnthropicToolChoiceType {
    Auto,
}

/// How the model is allowed to pick tools.
#[derive(Debug, Clone)]
pub struct AnthropicToolChoice {
    pub choice_type: AnthropicToolChoiceType,
    pub disable_parallel_tool_use: Option<bool>,
}

/// One property of a tool's input schema.
#[derive(Debug, Clone)]
pub struct PropertySchema {
    pub property_type: String,
    pub description: Option<String>,
    pub enum_values: Option<Vec<String>>,
}

impl PropertySchema {
    /// A plain string-typed property.
    pub fn string(description: String) -> (r: Self)
        ensures
            r.property_type@ == "string"@,
            r.description matches Some(d) && d@ == description@,
            r.enum_values is None,
    {
        PropertySchema {
            property_type: String::from_str("string"),
            description: Some(description),
            enum_values: None,
        }
    }

    /// A string-typed property restricted to an enumerated set of values.
    pub fn string_enum(description: String, values: Vec<String>) -> (r: Self)
        ensures
            r.property_type@ == "string"@,
            r.description matches Some(d) && d@ == description@,
            r.enum_values matches Some(v) && v@ == values@,
    {
        PropertySchema {
            property_type: String::from_str("string"),
            description: Some(description),
            enum_values: Some(values),
        }
    }
}

/// A tool's input schema: a property map (kept as key/schema pairs with
/// distinct keys) and the list of required property names.
#[derive(Debug, Clone)]
pub struct InputSchema {
    pub schema_type: String,
    pub properties: Vec<(String, PropertySchema)>,
    pub required: Option<Vec<String>>,
}

/// Whether the keys of a property list are pairwise distinct.
pub open spec fn distinct_keys(ps: Seq<(String, PropertySchema)>) -> bool {
    forall|i: int, j: int| 0 <= i < j < ps.len() ==> ps[i].0@ != ps[j].0@
}

/// A tool offered to the model.
#[derive(Debug, Clone)]
pub struct AnthropicTool {
    pub name: String,
    pub description: Option<String>,
    pub input_schema: InputSchema,
}

impl AnthropicTool {
    /// A tool with an object schema over the given properties.
    pub fn new(
        name: String,
        description: String,
        properties: Vec<(String, PropertySchema)>,
        required: Option<Vec<String>>,
    ) -> (r: Self)
        requires
            distinct_keys(properties@),
        ensures
            r.name@ == name@,
            r.description matches Some(d) && d@ == description@,
            r.input_schema.schema_type@ == "object"@,
            r.input_schema.properties@ == properties@,
            r.input_schema.required == required,
    {
        AnthropicTool {
            name,
            description: Some(description),
            input_schema: InputSchema {
                schema_type: String::from_str("object"),
                properties,
                required,
            },
        }
    }
}

/// The extended-reasoning switch; the wire only knows "enabled".
#[derive(Debug, Clone, Copy, PartialEq, Eq, Structural)]
pub enum AnthropicThinkingType {
    Enabled,
}

/// The extended-reasoning configuration: a token budget for the trace.
#[derive(Debug, Clone, Copy, PartialEq, Eq, Structural)]
pub struct AnthropicThinkingConfig {
    pub thinking_type: AnthropicThinkingType,
    pub budget_tokens: u32,
}

/// Cache directives on a system prompt.
#[derive(Debug, Clone, Copy, PartialEq, Eq, Structural)]
pub enum CacheType {
    Ephemeral,
}

/// A cache-control marker.
#[derive(Debug, Clone, Copy, PartialEq, Eq, Structural)]
pub struct CacheControl {
    pub cache_type: CacheType,
}

/// The type tag of a structured system prompt.
#[derive(Debug, Clone, Copy, PartialEq, Eq, Structural)]
pub enum SystemPromptType {
    Text,
}

/// A structured system prompt with optional cache control.
#[derive(Debug, Clone)]
pub struct SystemPromptData {
    pub text: String,
    pub prompt_type: SystemPromptType,
    pub cache_control: Option<CacheControl>,
}

/// A system prompt: a bare string or the structured form.
#[derive(Debug, Clone)]
pub enum AnthropicSystemPrompt {
    Simple(String),
    Structured(SystemPromptData),
}

/// The provider-specific wire request.
///
/// Fractional parameters are integer thousandths, as in the unified model.
#[derive(Debug, Clone)]
pub struct AnthropicChatRequest {
    pub model: Option<String>,
    pub messages: Vec<AnthropicMessage>,
    pub system: AnthropicSystemPrompt,
    pub temperature: Option<u32>,
    pub max_tokens: Option<u32>,
    pub stream: Option<bool>,
    pub thinking: Option<AnthropicThinkingConfig>,
    pub tools: Option<Vec<AnthropicTool>>,
    pub tool_choice: Option<AnthropicToolChoice>,
    pub top_k: Option<i32>,
    pub top_p: Option<u32>,
}

/// Why the model stopped.
#[derive(Debug, Clone, Copy, PartialEq, Eq, Structural)]
pub enum StopReason {
    EndTurn,
    MaxTokens,
    StopSequence,
    ToolUse,
}

/// A content block of a finished response.
#[derive(Debug, Clone)]
pub enum ResponseContentBlock {
    Text { text: String },
    Thinking { thinking: String },
}

/// An incremental content change inside a `content_block_delta` event.
#[derive(Debug, Clone)]
pub enum DeltaType {
    TextDelta { text: String },
    ThinkingDelta { thinking: String },
    SignatureDelta { signature: String },
}

/// The usage block of a finished response.
#[derive(Debug, Clone, Copy, PartialEq, Eq, Structural)]
pub struct Usage {
    pub input_tokens: u64,
    pub output_tokens: u64,
    pub cache_creation_input_tokens: Option<u64>,
    pub cache_read_input_tokens: Option<u64>,
}

/// The stop information carried by a `message_delta` event.
#[derive(Debug, Clone)]
pub struct MessageDelta {
    pub stop_reason: Option<StopReason>,
    pub stop_sequence: Option<String>,
}

/// A finished (non-streamed shape) response message.
#[derive(Debug, Clone)]
pub struct AnthropicResponse {
    pub id: String,
    pub message_type: String,
    pub role: String,
    pub content: Vec<ResponseContentBlock>,
    pub model: String,
    pub stop_reason: Option<StopReason>,
    pub stop_sequence: Option<String>,
    pub usage: Option<Usage>,
}

/// The usage counters accumulated while streaming; absent cache counters
/// default to zero.
#[derive(Debug, Clone, Copy, PartialEq, Eq, Structural)]
pub struct AnthropicUsage {
    pub input_tokens: u64,
    pub output_tokens: u64,
    pub cache_creation_input_tokens: u64,
    pub cache_read_input_tokens: u64,
}

/// Model settings in Anthropic shape: the shared base plus reasoning and
/// tool configuration.
#[derive(Debug, Clone)]
pub struct AnthropicModelSettings {
    pub base: BaseModelSettings,
    pub thinking: Option<AnthropicThinkingConfig>,
    pub tools: Option<Vec<AnthropicTool>>,
    pub tool_choice: Option<AnthropicToolChoice>,
}

impl AnthropicModelSettings {
    /// Fresh settings for `model` with reasoning, tools and every
    /// generation knob off.
    pub fn new(model: String) -> (r: Self)
        ensures
            r.base.provider == ProviderType::Anthropic,
            r.base.model@ == model@,
            r.base.temperature is None,
            r.base.max_tokens is None,
            r.base.stream is None,
            r.base.top_p is None,
            r.base.frequency_penalty is None,
            r.base.presence_penalty is None,
            r.base.seed is None,
            r.thinking is None,
            r.tools is None,
            r.tool_choice is None,
    {
        AnthropicModelSettings {
            base: BaseModelSettings::new(ProviderType::Anthropic, model),
            thinking: None,
            tools: None,
            tool_choice: None,
        }
    }

    /// Enables extended reasoning with the given budget.  The budget must be
    /// at least 1024 tokens and strictly below the configured `max_tokens`;
    /// otherwise the settings are rejected unchanged.
    pub fn with_thinking(self, budget_tokens: u32) -> (r: Result<Self, String>)
        ensures
            r is Ok <==> (budget_tokens >= 1024 && match self.base.max_tokens {
                Some(m) => budget_tokens < m,
                None => true,
            }),
            r matches Ok(s) ==> s == (AnthropicModelSettings {
                thinking: Some(
                    AnthropicThinkingConfig {
                        thinking_type: AnthropicThinkingType::Enabled,
                        budget_tokens,
                    },
                ),
                ..self
            }),
    {
        if budget_tokens < 1024 {
            return Err(String::from_str("thinking_budget must be at least 1024 tokens"));
        }
        if let Some(max_tokens) = self.base.max_tokens {
            if budget_tokens >= max_tokens {
                return Err(
                    String::from_str("thinking_budget must be less than max_tokens"),
                );
            }
        }
        let mut s = self;
        s.thinking = Some(
            AnthropicThinkingConfig {
                thinking_type: AnthropicThinkingType::Enabled,
                budget_tokens,
            },
        );
        Ok(s)
    }

    /// Replaces the tool list.
    pub fn with_tools(self, tools: Vec<AnthropicTool>) -> (r: Self)
        ensures
            r == (AnthropicModelSettings { tools: Some(tools), ..self }),
    {
        let mut s = self;
        s.tools = Some(tools);
        s
    }

    /// Lets the model pick tools automatically, in parallel.
    pub fn with_auto_tool_choice(self) -> (r: Self)
        ensures
            r == (AnthropicModelSettings {
                tool_choice: Some(
                    AnthropicToolChoice {
                        choice_type: AnthropicToolChoiceType::Auto,
                        disable_parallel_tool_use: None,
                    },
                ),
                ..self
            }),
    {
        let mut s = self;
        s.tool_choice = Some(
            AnthropicToolChoice {
                choice_type: AnthropicToolChoiceType::Auto,
                disable_parallel_tool_use: None,
            },
        );
        s
    }

    /// Lets the model pick tools automatically, one at a time.
    pub fn with_sequential_tool_choice(self) -> (r: Self)
        ensures
            r == (AnthropicModelSettings {
                tool_choice: Some(
                    AnthropicToolChoice {
                        choice_type: AnthropicToolChoiceType::Auto,
                        disable_parallel_tool_use: Some(true),
                    },
                ),
                ..self
            }),
    {
        let mut s = self;
        s.tool_choice = Some(
            AnthropicToolChoice {
                choice_type: AnthropicToolChoiceType::Auto,
                disable_parallel_tool_use: Some(true),
            },
        );
        s
    }
}

impl ProviderCapabilities for AnthropicModelSettings {
    fn supports_streaming(&self) -> bool {
        true
    }

    fn supports_thinking(&self) -> bool {
        true
    }

    fn supports_tools(&self) -> bool {
        true
    }

    fn get_default_model(&self) -> String {
        String::from_str("anthropic-small")
    }

    fn get_available_models(&self) -> Vec<String> {
        let mut models: Vec<String> = Vec::new();
        models.push(String::from_str("anthropic-large"));
        models.push(String::from_str("anthropic-medium"));
        models.push(String::from_str("anthropic-small"));
        models
    }

    fn get_max_tokens_limit(&self) -> u32 {
        if str_eq(self.base.model.as_str(), "anthropic-large") {
            4096 * 4
        } else if str_eq(self.base.model.as_str(), "anthropic-medium") {
            4096 * 2
        } else {
            4096
        }
    }
}

/// The media type selected for an image: unknown values fall back to JPEG
/// rather than failing, so that the request can still be attempted.
pub open spec fn media_type_of(s: Seq<char>) -> ImageMediaType {
    if s == "image/png"@ {
        ImageMediaType::Png
    } else if s == "image/gif"@ {
        ImageMediaType::Gif
    } else if s == "image/webp"@ {
        ImageMediaType::Webp
    } else {
        ImageMediaType::Jpeg
    }
}

/// Maps a MIME string to the wire's media-type tag, defaulting to JPEG for
/// anything unrecognized.
pub fn convert_media_type(media_type: &str) -> (r: ImageMediaType)
    ensures
        r == media_type_of(media_type@),
{
    if str_eq(media_type, "image/png") {
        ImageMediaType::Png
    } else if str_eq(media_type, "image/gif") {
        ImageMediaType::Gif
    } else if str_eq(media_type, "image/webp") {
        ImageMediaType::Webp
    } else {
        ImageMediaType::Jpeg
    }
}

/// Maps an encoding tag to the wire's source-type tag; base64 is the only
/// encoding, so unrecognized tags fall back to it.
pub fn convert_source_type(source_type: &str) -> (r: ImageSourceType)
    ensures
        r == ImageSourceType::Base64,
{
    let _ = source_type;
    ImageSourceType::Base64
}

/// One unified content item in wire-block shape.
pub open spec fn spec_block_of(item: ContentItem) -> ContentBlock {
    match item {
        ContentItem::Text { text } => ContentBlock::Text { text },
        ContentItem::Image { source } => ContentBlock::Image {
            source: AnthropicImageSource {
                source_type: ImageSourceType::Base64,
                media_type: media_type_of(source.media_type@),
                data: source.data,
            },
        },
    }
}

/// Unified message content in wire-block shape: plain text becomes a single
/// text block, structured content is converted item by item.
pub open spec fn spec_blocks_of(content: ContentType) -> Seq<ContentBlock> {
    match content {
        ContentType::PlainText(text) => seq![ContentBlock::Text { text }],
        ContentType::StructuredContent(items) => items@.map_values(|i: ContentItem| spec_block_of(i)),
    }
}

/// Converts unified message content into the wire's content blocks.
pub fn convert_content_to_anthropic_content_blocks(content: &ContentType) -> (r: Vec<ContentBlock>)
    ensures
        r@ == spec_blocks_of(*content),
{
    match content {
        ContentType::PlainText(text) => {
            let mut blocks: Vec<ContentBlock> = Vec::new();
            blocks.push(ContentBlock::Text { text: text.clone() });
            proof {
                assert(blocks@ =~= spec_blocks_of(*content));
            }
            blocks
        },
        ContentType::StructuredContent(items) => {
            let mut blocks: Vec<ContentBlock> = Vec::new();
            let mut i: usize = 0;
            while i < items.len()
                invariant
                    i <= items.len(),
                    blocks@ == items@.take(i as int).map_values(|it: ContentItem| spec_block_of(it)),
                decreases items.len() - i,
            {
                let block = match &items[i] {
                    ContentItem::Text { text } => ContentBlock::Text { text: text.clone() },
                    ContentItem::Image { source } => ContentBlock::Image {
                        source: AnthropicImageSource {
                            source_type: convert_source_type(source.source_type.as_str()),
                            media_type: convert_media_type(source.media_type.as_str()),
                            data: source.data.clone(),
                        },
                    },
                };
                blocks.push(block);
                proof {
                    assert(items@.take(i as int + 1) =~= items@.take(i as int).push(items@[i as int]));
                    assert(blocks@ =~= items@.take(i as int + 1).map_values(
                        |it: ContentItem| spec_block_of(it),
                    ));
                }
                i += 1;
            }
            proof {
                assert(items@.take(items@.len() as int) =~= items@);
            }
            blocks
        },
    }
}

/// Whether `am` is the wire shape of the unified message `msg`: the role
/// carried over (`System` never reaches here) and the content converted to
/// blocks.
pub open spec fn message_matches(msg: ChatMessage, am: AnthropicMessage) -> bool {
    &&& am.role == (if msg.role == ChatRole::User {
        AnthropicMessageRole::User
    } else {
        AnthropicMessageRole::Assistant
    })
    &&& am.content matches MessageContent::Blocks(blocks) && blocks@ == spec_blocks_of(
        msg.content,
    )
}

/// Builds one wire message from a unified role and content.
pub fn create_anthropic_message(role: ChatRole, content: &ContentType) -> (r: AnthropicMessage)
    requires
        role != ChatRole::System,
    ensures
        message_matches((ChatMessage { role, content: *content }), r),
{
    AnthropicMessage {
        role: match role {
            ChatRole::User => AnthropicMessageRole::User,
            _ => AnthropicMessageRole::Assistant,
        },
        content: MessageContent::Blocks(convert_content_to_anthropic_content_blocks(content)),
    }
}

/// Whether `dst` is exactly `src` with system messages removed and every
/// remaining message converted to wire shape, in order.
pub open spec fn adapted_messages_match(src: Seq<ChatMessage>, dst: Seq<AnthropicMessage>) -> bool
    decreases src.len(),
{
    if src.len() == 0 {
        dst.len() == 0
    } else if src.last().role == ChatRole::System {
        adapted_messages_match(src.drop_last(), dst)
    } else {
        dst.len() > 0 && message_matches(src.last(), dst.last()) && adapted_messages_match(
            src.drop_last(),
            dst.drop_last(),
        )
    }
}

/// Maps the unified request into the Anthropic wire request.
///
/// System messages are filtered out of `messages` (the prompt travels in
/// `system`), content is converted block by block, streaming is forced on,
/// and the reasoning budget keeps the wire's `enabled` shape.
pub fn adapt_request(request: ChatRequest) -> (r: AnthropicChatRequest)
    ensures
        r.model == request.model,
        adapted_messages_match(request.messages@, r.messages@),
        r.system == request.system,
        r.temperature == request.temperature,
        r.max_tokens == request.max_tokens,
        r.stream == Some(true),
        r.thinking == request.thinking,
        r.tools == request.tools,
        r.tool_choice == request.tool_choice,
        r.top_k == request.top_k,
        r.top_p == request.top_p,
{
    let mut messages: Vec<AnthropicMessage> = Vec::new();
    let mut i: usize = 0;
    while i < request.messages.len()
        invariant
            i <= request.messages.len(),
            adapted_messages_match(request.messages@.take(i as int), messages@),
        decreases request.messages.len() - i,
    {
        let msg = &request.messages[i];
        proof {
            assert(request.messages@.take(i as int + 1).drop_last() =~= request.messages@.take(
                i as int,
            ));
            assert(request.messages@.take(i as int + 1).last() == request.messages@[i as int]);
        }
        match msg.role {
            ChatRole::System => {},
            _ => {
                let ghost pre = messages@;
                let converted = create_anthropic_message(msg.role, &msg.content);
                proof {
                    assert(ChatMessage { role: msg.role, content: msg.content } == *msg);
                }
                messages.push(converted);
                proof {
                    assert(messages@.drop_last() =~= pre);
                }
            },
        }
        i += 1;
    }
    proof {
        assert(request.messages@.take(request.messages@.len() as int) =~= request.messages@);
    }
    AnthropicChatRequest {
        model: request.model,
        messages,
        system: request.system,
        temperature: request.temperature,
        max_tokens: request.max_tokens,
        stream: Some(true),
        thinking: request.thinking,
        tools: request.tools,
        tool_choice: request.tool_choice,
        top_k: request.top_k,
        top_p: request.top_p,
    }
}

/// The concatenation of every text block's text, in order.
pub open spec fn spec_joined_text(blocks: Seq<ResponseContentBlock>) -> Seq<char>
    decreases blocks.len(),
{
    if blocks.len() == 0 {
        Seq::empty()
    } else {
        spec_joined_text(blocks.drop_last()) + match blocks.last() {
            ResponseContentBlock::Text { text } => text@,
            ResponseContentBlock::Thinking { .. } => Seq::<char>::empty(),
        }
    }
}

/// The text of the first thinking block, if any.
pub open spec fn spec_first_thinking(blocks: Seq<ResponseContentBlock>) -> Option<Seq<char>>
    decreases blocks.len(),
{
    if blocks.len() == 0 {
        None
    } else {
        match blocks.first() {
            ResponseContentBlock::Thinking { thinking } => Some(thinking@),
            ResponseContentBlock::Text { .. } => spec_first_thinking(blocks.drop_first()),
        }
    }
}

/// Folds a finished response message into the unified shape: text blocks
/// concatenated, the first thinking block surfaced, and usage restated with
/// `total == prompt + completion`.
pub fn adapt_response(response: AnthropicResponse) -> (r: StreamResponse)
    ensures
        r.response@ == spec_joined_text(response.content@),
        match spec_first_thinking(response.content@) {
            Some(t) => r.thinking matches Some(s) && s@ == t,
            None => r.thinking is None,
        },
        match response.usage {
            Some(u) => r.usage matches Some(tu) && tu.prompt_tokens == u.input_tokens
                && tu.completion_tokens == u.output_tokens && tu.well_formed(),
            None => r.usage is None,
        },
{
    let mut text = String::new();
    let mut i: usize = 0;
    while i < response.content.len()
        invariant
            i <= response.content.len(),
            text@ == spec_joined_text(response.content@.take(i as int)),
        decreases response.content.len() - i,
    {
        proof {
            assert(response.content@.take(i as int + 1).drop_last() =~= response.content@.take(
                i as int,
            ));
            assert(response.content@.take(i as int + 1).last() == response.content@[i as int]);
        }
        match &response.content[i] {
            ResponseContentBlock::Text { text: t } => {
                text.append(t.as_str());
            },
            ResponseContentBlock::Thinking { .. } => {
                proof {
                    assert(text@ + Seq::<char>::empty() =~= text@);
                }
            },
        }
        i += 1;
    }
    proof {
        assert(response.content@.take(response.content@.len() as int) =~= response.content@);
    }

    let mut thinking: Option<String> = None;
    let mut j: usize = 0;
    let mut searching = true;
    while j < response.content.len() && searching
        invariant
            j <= response.content.len(),
            searching ==> thinking is None && spec_first_thinking(response.content@)
                == spec_first_thinking(response.content@.skip(j as int)),
            !searching ==> (match spec_first_thinking(response.content@) {
                Some(t) => thinking matches Some(s) && s@ == t,
                None => thinking is None,
            }),
        decreases response.content.len() - j + (if searching { 1int } else { 0int }),
    {
        proof {
            assert(response.content@.skip(j as int).first() == response.content@[j as int]);
            assert(response.content@.skip(j as int).drop_first() =~= response.content@.skip(
                j as int + 1,
            ));
        }
        match &response.content[j] {
            ResponseContentBlock::Thinking { thinking: t } => {
                thinking = Some(t.clone());
                searching = false;
            },
            ResponseContentBlock::Text { .. } => {
                j += 1;
            },
        }
    }
    proof {
        if searching {
            assert(response.content@.skip(response.content@.len() as int)
                =~= Seq::<ResponseContentBlock>::empty());
        }
    }

    let usage = match &response.usage {
        Some(u) => Some(crate::models::make_token_usage(u.input_tokens, u.output_tokens)),
        None => None,
    };

    StreamResponse { response: text, usage, thinking }
}

} // verus!

use crate::json::{parsed_json, spec_get, JsonValue};
use crate::strutil::{str_starts_with, strip_prefix};

verus! {

/// One normalized event of an Anthropic stream, reduced to what the
/// accumulator consumes.
#[derive(Debug, Clone)]
pub enum StreamEvent {
    /// Opens a message; may carry the initial usage counters.
    MessageStart { usage: Option<AnthropicUsage> },
    /// Opens the content block at `index`.
    ContentBlockStart { index: u64 },
    /// Extends the content block at `index`.
    ContentBlockDelta { index: u64, delta: DeltaType },
    /// Closes the content block at `index`.
    ContentBlockStop { index: u64 },
    /// Carries an updated output-token count, when the wire sent one.
    MessageDelta { output_tokens: Option<u64> },
    /// Terminates the message.
    MessageStop,
    /// Keepalive; carries nothing.
    Ping,
}

/// The abstract state of an Anthropic stream in progress.
#[verifier::ext_equal]
pub ghost struct ProcView {
    /// The accumulated answer text.
    pub text: Seq<char>,
    /// The accumulated thinking trace; `None` until a thinking delta arrives.
    pub thinking: Option<Seq<char>>,
    /// Whether the terminal event has been applied.
    pub complete: bool,
    /// The usage captured at message start, merged at terminal time.
    pub usage: Option<AnthropicUsage>,
    /// The last output-token count a `message_delta` reported.
    pub last_output_tokens: Option<u64>,
    /// The indices of the content blocks that have been started.
    pub started: Seq<u64>,
}

/// The usage record with the last observed output-token count merged in:
/// the last value wins, it is not summed.
pub open spec fn spec_merged_usage(
    usage: Option<AnthropicUsage>,
    last: Option<u64>,
) -> Option<AnthropicUsage> {
    match (usage, last) {
        (Some(u), Some(t)) => Some(AnthropicUsage { output_tokens: t, ..u }),
        _ => usage,
    }
}

/// Whether a delta addressed to block `index` may be applied: once block
/// lifecycle framing is in use (some block has been started), a delta
/// naming an unstarted index is a protocol error; a stream that frames no
/// blocks at all delivers deltas directly.
pub open spec fn block_ok(v: ProcView, index: u64) -> bool {
    v.started.len() == 0 || v.started.contains(index)
}

/// How one event changes the stream state.
///
/// `message_start` captures usage if present and resets the content state;
/// block-indexed deltas apply only where [`block_ok`] allows (a delta
/// naming an unstarted index while framing is in use is a protocol error
/// and leaves the state unchanged);
/// text deltas append, thinking deltas append to the trace, signature
/// deltas carry no text and are dropped; `message_delta` records the last
/// output-token count; `message_stop` completes the message, merging that
/// count into the usage (creating a usage record only when the count is
/// positive); block lifecycle markers and pings change nothing else.
pub open spec fn spec_apply(v: ProcView, ev: StreamEvent) -> ProcView {
    match ev {
        StreamEvent::MessageStart { usage } => ProcView {
            text: Seq::empty(),
            thinking: None,
            started: Seq::empty(),
            last_output_tokens: None,
            usage: if usage is Some {
                usage
            } else {
                v.usage
            },
            complete: v.complete,
        },
        StreamEvent::ContentBlockStart { index } => ProcView {
            started: v.started.push(index),
            ..v
        },
        StreamEvent::ContentBlockDelta { index, delta } => if !block_ok(v, index) {
            v
        } else {
            match delta {
                DeltaType::TextDelta { text } => ProcView { text: v.text + text@, ..v },
                DeltaType::ThinkingDelta { thinking } => ProcView {
                    thinking: Some(
                        match v.thinking {
                            Some(t) => t + thinking@,
                            None => thinking@,
                        },
                    ),
                    ..v
                },
                DeltaType::SignatureDelta { .. } => v,
            }
        },
        StreamEvent::ContentBlockStop { .. } => v,
        StreamEvent::MessageDelta { output_tokens } => match output_tokens {
            Some(t) => ProcView { last_output_tokens: Some(t), ..v },
            None => v,
        },
        StreamEvent::MessageStop => ProcView {
            complete: true,
            usage: match (v.usage, v.last_output_tokens) {
                (Some(u), Some(t)) => Some(AnthropicUsage { output_tokens: t, ..u }),
                (None, Some(t)) => if t > 0 {
                    Some(
                        AnthropicUsage {
                            input_tokens: 0,
                            output_tokens: t,
                            cache_creation_input_tokens: 0,
                            cache_read_input_tokens: 0,
                        },
                    )
                } else {
                    None
                },
                (u, None) => u,
            },
            ..v
        },
        StreamEvent::Ping => v,
    }
}

/// Accumulator monotonicity: every event except `message_start` (which
/// resets content state when a new message opens) extends the accumulated
/// text, so its length never decreases.
pub proof fn lemma_text_monotonic(v: ProcView, ev: StreamEvent)
    requires
        !(ev is MessageStart),
    ensures
        v.text.is_prefix_of(spec_apply(v, ev).text),
        v.text.len() <= spec_apply(v, ev).text.len(),
{
    let w = spec_apply(v, ev);
    assert(v.text.is_prefix_of(w.text)) by {
        assert(v.text =~= w.text.take(v.text.len() as int));
    }
}

/// The state after applying a whole sequence of events in order.
pub open spec fn spec_apply_all(v: ProcView, events: Seq<StreamEvent>) -> ProcView
    decreases events.len(),
{
    if events.len() == 0 {
        v
    } else {
        spec_apply_all(spec_apply(v, events.first()), events.drop_first())
    }
}

/// Accumulator monotonicity across a run: over any sequence of events
/// without a `message_start`, the accumulated text only ever grows, so its
/// length is non-decreasing across successive applications.
pub proof fn lemma_text_monotonic_all(v: ProcView, events: Seq<StreamEvent>)
    requires
        forall|i: int| 0 <= i < events.len() ==> !(#[trigger] events[i] is MessageStart),
    ensures
        v.text.is_prefix_of(spec_apply_all(v, events).text),
        v.text.len() <= spec_apply_all(v, events).text.len(),
    decreases events.len(),
{
    if events.len() == 0 {
        assert(v.text.is_prefix_of(v.text)) by {
            assert(v.text =~= v.text.take(v.text.len() as int));
        }
    } else {
        let w = spec_apply(v, events.first());
        lemma_text_monotonic(v, events.first());
        assert(forall|i: int|
            0 <= i < events.drop_first().len() ==> !(#[trigger] events.drop_first()[i]
                is MessageStart)) by {
            assert(forall|i: int|
                0 <= i < events.drop_first().len() ==> events.drop_first()[i] == events[i + 1]);
        }
        lemma_text_monotonic_all(w, events.drop_first());
        let u = spec_apply_all(v, events);
        assert(u == spec_apply_all(w, events.drop_first()));
        assert(v.text.is_prefix_of(u.text)) by {
            assert(v.text == w.text.take(v.text.len() as int));
            assert(w.text == u.text.take(w.text.len() as int));
            assert(v.text =~= u.text.take(v.text.len() as int));
        }
    }
}

/// Terminal idempotence: applying the terminal event twice leaves exactly
/// the state the first application produced, so any snapshot taken after
/// the terminal event is stable.
pub proof fn lemma_terminal_idempotent(v: ProcView)
    ensures
        spec_apply(spec_apply(v, StreamEvent::MessageStop), StreamEvent::MessageStop)
            == spec_apply(v, StreamEvent::MessageStop),
{
    let once = spec_apply(v, StreamEvent::MessageStop);
    let twice = spec_apply(once, StreamEvent::MessageStop);
    assert(twice =~= once);
}

/// How one trimmed SSE line changes the accumulator: lines without the
/// `data: ` prefix (blank, comments, `event:` framing) change nothing; a
/// data payload that parses to a recognized event is applied; a payload
/// that does not parse, or denotes no event, is skipped.
pub open spec fn spec_line_step(v: ProcView, line: Seq<char>) -> ProcView {
    if "data: "@.is_prefix_of(line) {
        match parsed_json(line.skip("data: "@.len() as int)) {
            Some(j) => match spec_event_of(j) {
                Some(ev) => spec_apply(v, ev),
                None => v,
            },
            None => v,
        }
    } else {
        v
    }
}

/// Folds Anthropic stream events into accumulated text, thinking trace,
/// usage counters and a completion flag.
#[derive(Debug, Clone)]
pub struct AnthropicStreamProcessor {
    current_content: String,
    thinking_content: Option<String>,
    is_complete: bool,
    usage: Option<AnthropicUsage>,
    last_output_tokens: Option<u64>,
    started_blocks: Vec<u64>,
}

impl View for AnthropicStreamProcessor {
    type V = ProcView;

    closed spec fn view(&self) -> ProcView {
        ProcView {
            text: self.current_content@,
            thinking: match self.thinking_content {
                Some(t) => Some(t@),
                None => None,
            },
            complete: self.is_complete,
            usage: self.usage,
            last_output_tokens: self.last_output_tokens,
            started: self.started_blocks@,
        }
    }
}

/// Whether `x` occurs in `v`.
fn contains_u64(v: &Vec<u64>, x: u64) -> (r: bool)
    ensures
        r == v@.contains(x),
{
    let mut i: usize = 0;
    while i < v.len()
        invariant
            i <= v.len(),
            forall|j: int| 0 <= j < i ==> v@[j] != x,
        decreases v.len() - i,
    {
        if v[i] == x {
            return true;
        }
        i += 1;
    }
    false
}

impl AnthropicStreamProcessor {
    /// A fresh processor: empty text, no thinking trace, no usage, not
    /// complete.
    pub fn new() -> (r: Self)
        ensures
            r@.text == Seq::<char>::empty(),
            r@.thinking is None,
            !r@.complete,
            r@.usage is None,
            r@.last_output_tokens is None,
            r@.started == Seq::<u64>::empty(),
    {
        AnthropicStreamProcessor {
            current_content: String::new(),
            thinking_content: None,
            is_complete: false,
            usage: None,
            last_output_tokens: None,
            started_blocks: Vec::new(),
        }
    }

    /// Applies one event; returns whether the terminal event has been seen.
    pub fn apply(&mut self, event: &StreamEvent) -> (done: bool)
        ensures
            final(self)@ == spec_apply(old(self)@, *event),
            done == final(self)@.complete,
            !(*event is MessageStart) ==> old(self)@.text.is_prefix_of(final(self)@.text),
    {
        proof {
            if !(*event is MessageStart) {
                lemma_text_monotonic(old(self)@, *event);
            }
        }
        match event {
            StreamEvent::MessageStart { usage } => {
                if let Some(u) = usage {
                    self.usage = Some(*u);
                }
                self.current_content = String::new();
                self.thinking_content = None;
                self.started_blocks = Vec::new();
                self.last_output_tokens = None;
                proof {
                    assert(self@ =~= spec_apply(old(self)@, *event));
                }
            },
            StreamEvent::ContentBlockStart { index } => {
                self.started_blocks.push(*index);
                proof {
                    assert(self@ =~= spec_apply(old(self)@, *event));
                }
            },
            StreamEvent::ContentBlockDelta { index, delta } => {
                if self.started_blocks.len() == 0 || contains_u64(&self.started_blocks, *index) {
                    match delta {
                        DeltaType::TextDelta { text } => {
                            self.current_content.append(text.as_str());
                            proof {
                                assert(self@ =~= spec_apply(old(self)@, *event));
                            }
                        },
                        DeltaType::ThinkingDelta { thinking } => {
                            match &mut self.thinking_content {
                                Some(t) => {
                                    t.append(thinking.as_str());
                                },
                                None => {
                                    self.thinking_content = Some(thinking.clone());
                                },
                            }
                            proof {
                                assert(self@ =~= spec_apply(old(self)@, *event));
                            }
                        },
                        DeltaType::SignatureDelta { .. } => {
                            proof {
                                assert(self@ =~= spec_apply(old(self)@, *event));
                            }
                        },
                    }
                } else {
                    proof {
                        assert(self@ =~= spec_apply(old(self)@, *event));
                    }
                }
            },
            StreamEvent::ContentBlockStop { .. } => {
                proof {
                    assert(self@ =~= spec_apply(old(self)@, *event));
                }
            },
            StreamEvent::MessageDelta { output_tokens } => {
                if let Some(t) = output_tokens {
                    self.last_output_tokens = Some(*t);
                }
                proof {
                    assert(self@ =~= spec_apply(old(self)@, *event));
                }
            },
            StreamEvent::MessageStop => {
                self.is_complete = true;
                if let Some(t) = self.last_output_tokens {
                    match &mut self.usage {
                        Some(u) => {
                            u.output_tokens = t;
                        },
                        None => {
                            if t > 0 {
                                self.usage = Some(
                                    AnthropicUsage {
                                        input_tokens: 0,
                                        output_tokens: t,
                                        cache_creation_input_tokens: 0,
                                        cache_read_input_tokens: 0,
                                    },
                                );
                            }
                        },
                    }
                }
                proof {
                    assert(self@ =~= spec_apply(old(self)@, *event));
                }
            },
            StreamEvent::Ping => {
                proof {
                    assert(self@ =~= spec_apply(old(self)@, *event));
                }
            },
        }
        self.is_complete
    }

    /// The accumulated answer text.
    pub fn get_text_content(&self) -> (r: String)
        ensures
            r@ == self@.text,
    {
        self.current_content.clone()
    }

    /// The accumulated thinking trace, if any thinking delta arrived.
    pub fn get_thinking_content(&self) -> (r: Option<String>)
        ensures
            match self@.thinking {
                Some(t) => r matches Some(s) && s@ == t,
                None => r is None,
            },
    {
        match &self.thinking_content {
            Some(t) => Some(t.clone()),
            None => None,
        }
    }

    /// The usage so far, with the last observed output-token count merged
    /// in (the last value wins, it is not summed).
    pub fn get_usage(&self) -> (r: Option<AnthropicUsage>)
        ensures
            r == spec_merged_usage(self@.usage, self@.last_output_tokens),
    {
        match (&self.usage, &self.last_output_tokens) {
            (Some(u), Some(t)) => {
                let mut merged = *u;
                merged.output_tokens = *t;
                Some(merged)
            },
            _ => self.usage,
        }
    }

    /// Whether the terminal event has been applied.
    pub fn is_complete(&self) -> (r: bool)
        ensures
            r == self@.complete,
    {
        self.is_complete
    }

    /// The reply as a wire message, once there is anything to report: the
    /// accumulated text as a single text block from the assistant.
    pub fn get_message(&self) -> (r: Option<AnthropicMessage>)
        ensures
            r is Some <==> (self@.complete || self@.text.len() > 0),
            r matches Some(m) ==> m.role == AnthropicMessageRole::Assistant
                && (m.content matches MessageContent::Blocks(blocks) && blocks@.len() == 1
                && (blocks@[0] matches ContentBlock::Text { text } && text@ == self@.text)),
    {
        if self.is_complete || self.current_content.as_str().unicode_len() > 0 {
            let mut blocks: Vec<ContentBlock> = Vec::new();
            blocks.push(ContentBlock::Text { text: self.current_content.clone() });
            Some(
                AnthropicMessage {
                    role: AnthropicMessageRole::Assistant,
                    content: MessageContent::Blocks(blocks),
                },
            )
        } else {
            None
        }
    }

    /// The final unified response: the accumulated text, the merged usage
    /// restated so that the total is the sum of prompt and completion
    /// tokens, and the thinking trace only when one was actually observed
    /// and non-empty (never an empty string).
    pub fn finalize(&self) -> (r: StreamResponse)
        ensures
            r.response@ == self@.text,
            match spec_merged_usage(self@.usage, self@.last_output_tokens) {
                Some(u) => r.usage == Some(
                    crate::models::spec_token_usage(u.input_tokens, u.output_tokens),
                ),
                None => r.usage is None,
            },
            r.usage matches Some(t) ==> t.well_formed(),
            match self@.thinking {
                Some(t) => if t.len() > 0 {
                    r.thinking matches Some(s) && s@ == t
                } else {
                    r.thinking is None
                },
                None => r.thinking is None,
            },
    {
        let usage = match self.get_usage() {
            Some(u) => Some(crate::models::make_token_usage(u.input_tokens, u.output_tokens)),
            None => None,
        };
        let thinking = match &self.thinking_content {
            Some(t) => if t.as_str().unicode_len() > 0 {
                Some(t.clone())
            } else {
                None
            },
            None => None,
        };
        StreamResponse { response: self.current_content.clone(), usage, thinking }
    }

    /// Processes one trimmed SSE line.
    ///
    /// Blank lines, comment lines (`:`), and `event:` framing lines are
    /// ignored; a `data: ` payload is parsed as self-tagged JSON and the
    /// event it denotes is applied.  A payload that does not parse, or
    /// whose `type` is unrecognized, is skipped without aborting the
    /// stream.  The whole step is pinned by [`spec_line_step`]; the result
    /// reports whether the terminal event has been seen, and is never an
    /// error.
    pub fn process_sse_line(&mut self, line: &str) -> (r: Result<bool, String>)
        ensures
            r matches Ok(done) && done == final(self)@.complete,
            final(self)@ == spec_line_step(old(self)@, line@),
    {
        if !str_starts_with(line, "data: ") {
            return Ok(self.is_complete);
        }
        let payload = strip_prefix(line, "data: ");
        let parsed = match crate::json::parse_json(payload.as_str()) {
            Some(j) => j,
            None => {
                return Ok(self.is_complete);
            },
        };
        match extract_event(&parsed) {
            Some(event) => {
                let done = self.apply(&event);
                Ok(done)
            },
            None => Ok(self.is_complete),
        }
    }
}

/// The `index` a block-indexed payload names, when it is a `u64` number.
pub open spec fn spec_index_of(j: JsonValue) -> Option<u64> {
    match spec_get(j, "index"@) {
        Some(JsonValue::UInt(i)) => Some(i),
        _ => None,
    }
}

/// The counter under `key` of a usage object, defaulting to zero when the
/// field is absent or not a `u64` number.
pub open spec fn spec_count_or_zero(u: JsonValue, key: Seq<char>) -> u64 {
    match spec_get(u, key) {
        Some(JsonValue::UInt(v)) => v,
        _ => 0,
    }
}

/// The usage record a usage object denotes: `input_tokens` is required,
/// the other counters default to zero.
pub open spec fn spec_usage_of(u: JsonValue) -> Option<AnthropicUsage> {
    match spec_get(u, "input_tokens"@) {
        Some(JsonValue::UInt(i)) => Some(
            AnthropicUsage {
                input_tokens: i,
                output_tokens: spec_count_or_zero(u, "output_tokens"@),
                cache_creation_input_tokens: spec_count_or_zero(
                    u,
                    "cache_creation_input_tokens"@,
                ),
                cache_read_input_tokens: spec_count_or_zero(u, "cache_read_input_tokens"@),
            },
        ),
        _ => None,
    }
}

/// The initial usage a `message_start` payload carries, if any.
pub open spec fn spec_start_usage_of(j: JsonValue) -> Option<AnthropicUsage> {
    match spec_get(j, "message"@) {
        Some(m) => match spec_get(m, "usage"@) {
            Some(u) => spec_usage_of(u),
            None => None,
        },
        None => None,
    }
}

/// The content change a `delta` object denotes, if its `type` is known and
/// its fragment is a string.
pub open spec fn spec_delta_of(d: JsonValue) -> Option<DeltaType> {
    match spec_get(d, "type"@) {
        Some(JsonValue::Text(t)) => if t@ == "text_delta"@ {
            match spec_get(d, "text"@) {
                Some(JsonValue::Text(s)) => Some(DeltaType::TextDelta { text: s }),
                _ => None,
            }
        } else if t@ == "thinking_delta"@ {
            match spec_get(d, "thinking"@) {
                Some(JsonValue::Text(s)) => Some(DeltaType::ThinkingDelta { thinking: s }),
                _ => None,
            }
        } else if t@ == "signature_delta"@ {
            match spec_get(d, "signature"@) {
                Some(JsonValue::Text(s)) => Some(DeltaType::SignatureDelta { signature: s }),
                _ => None,
            }
        } else {
            None
        },
        _ => None,
    }
}

/// The updated output-token count a `message_delta` payload carries.
pub open spec fn spec_output_tokens_of(j: JsonValue) -> Option<u64> {
    match spec_get(j, "usage"@) {
        Some(u) => match spec_get(u, "output_tokens"@) {
            Some(JsonValue::UInt(t)) => Some(t),
            _ => None,
        },
        None => None,
    }
}

/// The stream event a self-tagged payload denotes: `None` when its `type`
/// is missing, unrecognized, or its required fields are absent — such
/// lines are skipped without aborting the stream.
pub open spec fn spec_event_of(j: JsonValue) -> Option<StreamEvent> {
    match spec_get(j, "type"@) {
        Some(JsonValue::Text(t)) => if t@ == "message_start"@ {
            Some(StreamEvent::MessageStart { usage: spec_start_usage_of(j) })
        } else if t@ == "content_block_start"@ {
            match spec_index_of(j) {
                Some(i) => Some(StreamEvent::ContentBlockStart { index: i }),
                None => None,
            }
        } else if t@ == "content_block_delta"@ {
            match spec_index_of(j) {
                Some(i) => match spec_get(j, "delta"@) {
                    Some(d) => match spec_delta_of(d) {
                        Some(delta) => Some(StreamEvent::ContentBlockDelta { index: i, delta }),
                        None => None,
                    },
                    None => None,
                },
                None => None,
            }
        } else if t@ == "content_block_stop"@ {
            match spec_index_of(j) {
                Some(i) => Some(StreamEvent::ContentBlockStop { index: i }),
                None => None,
            }
        } else if t@ == "message_delta"@ {
            Some(StreamEvent::MessageDelta { output_tokens: spec_output_tokens_of(j) })
        } else if t@ == "message_stop"@ {
            Some(StreamEvent::MessageStop)
        } else if t@ == "ping"@ {
            Some(StreamEvent::Ping)
        } else {
            None
        },
        _ => None,
    }
}

/// Decodes one parsed payload into exactly the event [`spec_event_of`]
/// denotes.
fn extract_event(j: &JsonValue) -> (r: Option<StreamEvent>)
    ensures
        r == spec_event_of(*j),
{
    let type_str = match j.get_field("type") {
        Some(JsonValue::Text(t)) => t,
        _ => {
            return None;
        },
    };
    if str_eq(type_str.as_str(), "message_start") {
        Some(StreamEvent::MessageStart { usage: extract_start_usage(j) })
    } else if str_eq(type_str.as_str(), "content_block_start") {
        match extract_index(j) {
            Some(index) => Some(StreamEvent::ContentBlockStart { index }),
            None => None,
        }
    } else if str_eq(type_str.as_str(), "content_block_delta") {
        let index = match extract_index(j) {
            Some(i) => i,
            None => {
                return None;
            },
        };
        let delta_obj = match j.get_field("delta") {
            Some(d) => d,
            None => {
                return None;
            },
        };
        match extract_delta(delta_obj) {
            Some(delta) => Some(StreamEvent::ContentBlockDelta { index, delta }),
            None => None,
        }
    } else if str_eq(type_str.as_str(), "content_block_stop") {
        match extract_index(j) {
            Some(index) => Some(StreamEvent::ContentBlockStop { index }),
            None => None,
        }
    } else if str_eq(type_str.as_str(), "message_delta") {
        Some(StreamEvent::MessageDelta { output_tokens: extract_output_tokens(j) })
    } else if str_eq(type_str.as_str(), "message_stop") {
        Some(StreamEvent::MessageStop)
    } else if str_eq(type_str.as_str(), "ping") {
        Some(StreamEvent::Ping)
    } else {
        None
    }
}

/// The `index` field of a block-indexed payload.
fn extract_index(j: &JsonValue) -> (r: Option<u64>)
    ensures
        r == spec_index_of(*j),
{
    match j.get_field("index") {
        Some(JsonValue::UInt(i)) => Some(*i),
        _ => None,
    }
}

/// The content change of a `delta` object.
fn extract_delta(d: &JsonValue) -> (r: Option<DeltaType>)
    ensures
        r == spec_delta_of(*d),
{
    let delta_type = match d.get_field("type") {
        Some(JsonValue::Text(t)) => t,
        _ => {
            return None;
        },
    };
    if str_eq(delta_type.as_str(), "text_delta") {
        match d.get_field("text") {
            Some(JsonValue::Text(s)) => Some(DeltaType::TextDelta { text: s.clone() }),
            _ => None,
        }
    } else if str_eq(delta_type.as_str(), "thinking_delta") {
        match d.get_field("thinking") {
            Some(JsonValue::Text(s)) => Some(DeltaType::ThinkingDelta { thinking: s.clone() }),
            _ => None,
        }
    } else if str_eq(delta_type.as_str(), "signature_delta") {
        match d.get_field("signature") {
            Some(JsonValue::Text(s)) => Some(
                DeltaType::SignatureDelta { signature: s.clone() },
            ),
            _ => None,
        }
    } else {
        None
    }
}

/// One counter read with a zero default.
fn extract_count_or_zero(u: &JsonValue, key: &str) -> (r: u64)
    ensures
        r == spec_count_or_zero(*u, key@),
{
    match u.get_field(key) {
        Some(JsonValue::UInt(v)) => *v,
        _ => 0,
    }
}

/// The usage carried by a `message_start` payload.
fn extract_start_usage(j: &JsonValue) -> (r: Option<AnthropicUsage>)
    ensures
        r == spec_start_usage_of(*j),
{
    let message = match j.get_field("message") {
        Some(m) => m,
        None => {
            return None;
        },
    };
    let usage = match message.get_field("usage") {
        Some(u) => u,
        None => {
            return None;
        },
    };
    let input_tokens = match usage.get_field("input_tokens") {
        Some(JsonValue::UInt(i)) => *i,
        _ => {
            return None;
        },
    };
    Some(
        AnthropicUsage {
            input_tokens,
            output_tokens: extract_count_or_zero(usage, "output_tokens"),
            cache_creation_input_tokens: extract_count_or_zero(
                usage,
                "cache_creation_input_tokens",
            ),
            cache_read_input_tokens: extract_count_or_zero(usage, "cache_read_input_tokens"),
        },
    )
}

/// The updated output-token count of a `message_delta` payload.
fn extract_output_tokens(j: &JsonValue) -> (r: Option<u64>)
    ensures
        r == spec_output_tokens_of(*j),
{
    let usage = match j.get_field("usage") {
        Some(u) => u,
        None => {
            return None;
        },
    };
    match usage.get_field("output_tokens") {
        Some(JsonValue::UInt(t)) => Some(*t),
        _ => None,
    }
}

} // verus!

verus! {

/// The fallback model catalogue, used when a live catalogue response
/// carries no `data` array.
pub fn default_model_ids() -> (r: Vec<String>)
    ensures
        r@.len() == 3,
        r@[0]@ == "anthropic-large"@,
        r@[1]@ == "anthropic-medium"@,
        r@[2]@ == "anthropic-small"@,
{
    let mut models: Vec<String> = Vec::new();
    models.push(String::from_str("anthropic-large"));
    models.push(String::from_str("anthropic-medium"));
    models.push(String::from_str("anthropic-small"));
    models
}

/// The trimmed lines of the model ids of a catalogue `data` array: the
/// `id` string of each element, in order; elements without one contribute
/// nothing.
pub open spec fn spec_model_ids(items: Seq<JsonValue>) -> Seq<Seq<char>>
    decreases items.len(),
{
    if items.len() == 0 {
        Seq::empty()
    } else {
        spec_model_ids(items.drop_last()) + match spec_get(items.last(), "id"@) {
            Some(JsonValue::Text(s)) => seq![s@],
            _ => Seq::<Seq<char>>::empty(),
        }
    }
}

/// The model identifiers of a catalogue response: the string `id` of each
/// element of its `data` array, in order, elements without one skipped; a
/// response without a `data` array yields the fallback catalogue.
pub fn extract_model_ids(models_response: &JsonValue) -> (r: Vec<String>)
    ensures
        match spec_get(*models_response, "data"@) {
            Some(JsonValue::Array(items)) => r@.map_values(|s: String| s@) == spec_model_ids(
                items@,
            ),
            _ => r@.len() == 3 && r@[0]@ == "anthropic-large"@ && r@[1]@ == "anthropic-medium"@
                && r@[2]@ == "anthropic-small"@,
        },
{
    let data = match models_response.get_field("data") {
        Some(d) => d,
        None => {
            return default_model_ids();
        },
    };
    let items = match data {
        JsonValue::Array(items) => items,
        _ => {
            return default_model_ids();
        },
    };
    let mut models: Vec<String> = Vec::new();
    let mut i: usize = 0;
    while i < items.len()
        invariant
            i <= items.len(),
            models@.map_values(|s: String| s@) == spec_model_ids(items@.take(i as int)),
        decreases items.len() - i,
    {
        proof {
            assert(items@.take(i as int + 1).drop_last() =~= items@.take(i as int));
            assert(items@.take(i as int + 1).last() == items@[i as int]);
        }
        match items[i].get_field("id") {
            Some(id) => match id {
                JsonValue::Text(s) => {
                    models.push(s.clone());
                    proof {
                        assert(models@.map_values(|s: String| s@) =~= spec_model_ids(
                            items@.take(i as int + 1),
                        ));
                    }
                },
                _ => {
                    proof {
                        assert(models@.map_values(|s: String| s@) + Seq::<Seq<char>>::empty()
                            =~= models@.map_values(|s: String| s@));
                    }
                },
            },
            None => {
                proof {
                    assert(models@.map_values(|s: String| s@) + Seq::<Seq<char>>::empty()
                        =~= models@.map_values(|s: String| s@));
                }
            },
        }
        i += 1;
    }
    proof {
        assert(items@.take(items@.len() as int) =~= items@);
    }
    models
}

} // verus!
