//! The Cloudflare Workers AI wire format and stream processor.
//!
//! Cloudflare streams flat `data: {"response": ..., "usage": ...}` lines and
//! terminates with the literal `data: [DONE]`.  The processor folds those
//! lines into accumulated text and a last-write-wins usage record.

use vstd::prelude::*;

use crate::json::{parse_json, parsed_json, spec_get, JsonValue};
use crate::models::{make_token_usage, spec_token_usage, StreamResponse, TokenUsage};
use crate::strutil::{str_eq, str_starts_with, strip_prefix};

verus! {

/// A wire-level error record.
#[derive(Debug, Clone)]
pub struct CloudflareError {
    pub code: i32,
    pub message: String,
}

/// The task family of a catalogue model.
#[derive(Debug, Clone)]
pub struct CloudflareModelTask {
    pub id: String,
    pub name: String,
    pub description: String,
}

/// One property of a catalogue model.
#[derive(Debug, Clone)]
pub struct CloudflareModelProperty {
    pub property_id: String,
    pub value: String,
}

/// One model of the catalogue.
#[derive(Debug, Clone)]
pub struct CloudflareModel {
    pub id: String,
    pub source: i32,
    pub name: String,
    pub description: String,
    pub task: CloudflareModelTask,
    pub tags: Vec<String>,
    pub properties: Vec<CloudflareModelProperty>,
}

/// Paging information of a catalogue response.
#[derive(Debug, Clone, Copy, PartialEq, Eq, Structural)]
pub struct CloudflareResultInfo {
    pub count: i32,
    pub page: i32,
    pub per_page: i32,
    pub total_count: i32,
}

/// The catalogue response envelope.
#[derive(Debug, Clone)]
pub struct CloudflareModelResponse {
    pub success: bool,
    pub result: Vec<CloudflareModel>,
    pub errors: Vec<CloudflareError>,
    pub messages: Vec<String>,
    pub result_info: CloudflareResultInfo,
}

/// The usage counters as Cloudflare reports them.
#[derive(Debug, Clone, Copy, PartialEq, Eq, Structural)]
pub struct CloudflareUsage {
    pub completion_tokens: i32,
    pub prompt_tokens: i32,
    pub total_tokens: i32,
}

/// The roles of the flat chat format.
#[derive(Debug, Clone, Copy, PartialEq, Eq, Structural)]
pub enum MessageRole {
    System,
    User,
    Assistant,
}

/// One message of the flat chat format.
#[derive(Debug, Clone)]
pub struct Message {
    pub role: MessageRole,
    pub content: String,
    pub tokens_used: Option<u32>,
}

/// The flat chat input: messages plus the streaming switch.
#[derive(Debug, Clone)]
pub struct ChatInput {
    pub messages: Vec<Message>,
    pub stream: bool,
}

/// The result body of a non-streamed chat call.
#[derive(Debug, Clone)]
pub struct CloudflareResult {
    pub response: String,
    pub usage: CloudflareUsage,
}

/// The envelope of a non-streamed chat call.
#[derive(Debug, Clone)]
pub struct CloudflareResponse {
    pub errors: Vec<CloudflareError>,
    pub messages: Vec<Message>,
    pub result: CloudflareResult,
    pub success: bool,
}

/// An account-scoped credential pair.
#[derive(Debug, Clone)]
pub struct Credentials {
    pub account_id: String,
    pub api_token: String,
}

/// The Cloudflare provider marker.
#[derive(Debug, Clone)]
pub struct CloudflareProvider {}

impl CloudflareProvider {
    /// The model identifiers this client offers for Cloudflare.
    pub fn list_models(&self) -> (r: Vec<String>)
        ensures
            r@.len() == 1,
            r@[0]@ == "@cf/meta/llama-3-8b-instruct"@,
    {
        let mut models: Vec<String> = Vec::new();
        models.push(String::from_str("@cf/meta/llama-3-8b-instruct"));
        models
    }
}

/// One normalized event of a Cloudflare stream: a data line carrying a text
/// fragment (and possibly usage), or the `[DONE]` sentinel.
#[derive(Debug, Clone)]
pub enum CloudflareEvent {
    Data { response: String, usage: Option<TokenUsage> },
    Done,
}

/// The abstract state of a Cloudflare stream in progress.
#[verifier::ext_equal]
pub ghost struct CfView {
    pub text: Seq<char>,
    pub usage: Option<TokenUsage>,
    pub complete: bool,
}

/// How one event changes the stream state: data appends its fragment and,
/// when it carries usage, overwrites the usage record (last value wins);
/// the sentinel marks completion.
pub open spec fn spec_apply_cf(v: CfView, ev: CloudflareEvent) -> CfView {
    match ev {
        CloudflareEvent::Data { response, usage } => CfView {
            text: v.text + response@,
            usage: if usage is Some {
                usage
            } else {
                v.usage
            },
            complete: v.complete,
        },
        CloudflareEvent::Done => CfView { complete: true, ..v },
    }
}

/// The usage record a data payload carries: present only when both
/// counters are `u64` numbers, with the total recomputed as their sum.
pub open spec fn spec_cf_usage_of(j: JsonValue) -> Option<TokenUsage> {
    match spec_get(j, "usage"@) {
        Some(u) => match (spec_get(u, "prompt_tokens"@), spec_get(u, "completion_tokens"@)) {
            (Some(JsonValue::UInt(p)), Some(JsonValue::UInt(c))) => Some(spec_token_usage(p, c)),
            _ => None,
        },
        None => None,
    }
}

/// The event a data payload denotes: a text fragment with optional usage;
/// `None` when `response` is missing or not a string — such lines are
/// skipped.
pub open spec fn spec_cf_event_of(j: JsonValue) -> Option<CloudflareEvent> {
    match spec_get(j, "response"@) {
        Some(JsonValue::Text(s)) => Some(
            CloudflareEvent::Data { response: s, usage: spec_cf_usage_of(j) },
        ),
        _ => None,
    }
}

/// How one trimmed stream line changes the state: non-data lines change
/// nothing; `data: [DONE]` completes the stream; any other data payload
/// that parses with a string `response` is applied, and anything else is
/// skipped.
pub open spec fn spec_cf_line_step(v: CfView, line: Seq<char>) -> CfView {
    if "data: "@.is_prefix_of(line) {
        if line.skip("data: "@.len() as int) == "[DONE]"@ {
            spec_apply_cf(v, CloudflareEvent::Done)
        } else {
            match parsed_json(line.skip("data: "@.len() as int)) {
                Some(j) => match spec_cf_event_of(j) {
                    Some(ev) => spec_apply_cf(v, ev),
                    None => v,
                },
                None => v,
            }
        }
    } else {
        v
    }
}

/// Folds Cloudflare stream lines into accumulated text, usage and a
/// completion flag.
#[derive(Debug, Clone)]
pub struct CloudflareStreamProcessor {
    text: String,
    usage: Option<TokenUsage>,
    complete: bool,
}

impl View for CloudflareStreamProcessor {
    type V = CfView;

    closed spec fn view(&self) -> CfView {
        CfView { text: self.text@, usage: self.usage, complete: self.complete }
    }
}

impl CloudflareStreamProcessor {
    /// A fresh processor: no text, no usage, not complete.
    pub fn new() -> (r: Self)
        ensures
            r@.text == Seq::<char>::empty(),
            r@.usage is None,
            !r@.complete,
    {
        CloudflareStreamProcessor { text: String::new(), usage: None, complete: false }
    }

    /// Applies one event; returns whether the stream is complete.
    pub fn apply(&mut self, event: &CloudflareEvent) -> (done: bool)
        ensures
            final(self)@ == spec_apply_cf(old(self)@, *event),
            done == final(self)@.complete,
            old(self)@.text.is_prefix_of(final(self)@.text),
    {
        match event {
            CloudflareEvent::Data { response, usage } => {
                self.text.append(response.as_str());
                if let Some(u) = usage {
                    self.usage = Some(*u);
                }
                proof {
                    assert(self@ =~= spec_apply_cf(old(self)@, *event));
                    assert(old(self)@.text =~= self@.text.take(old(self)@.text.len() as int));
                }
            },
            CloudflareEvent::Done => {
                self.complete = true;
                proof {
                    assert(self@ =~= spec_apply_cf(old(self)@, *event));
                    assert(old(self)@.text =~= self@.text.take(old(self)@.text.len() as int));
                }
            },
        }
        self.complete
    }

    /// Processes one trimmed stream line.
    ///
    /// Lines without the `data: ` prefix are keepalive or framing and leave
    /// the state untouched; `data: [DONE]` completes the stream; any other
    /// payload is parsed as JSON with a required `response` fragment and
    /// optional usage counters, and a payload that does not parse (or lacks
    /// `response`) is skipped without aborting the stream.
    pub fn process_line(&mut self, line: &str) -> (done: bool)
        ensures
            done == final(self)@.complete,
            final(self)@ == spec_cf_line_step(old(self)@, line@),
            old(self)@.text.is_prefix_of(final(self)@.text),
    {
        proof {
            assert(self@.text.is_prefix_of(self@.text)) by {
                assert(self@.text =~= self@.text.take(self@.text.len() as int));
            }
        }
        if !str_starts_with(line, "data: ") {
            return self.complete;
        }
        let payload = strip_prefix(line, "data: ");
        if str_eq(payload.as_str(), "[DONE]") {
            return self.apply(&CloudflareEvent::Done);
        }
        let parsed = match parse_json(payload.as_str()) {
            Some(j) => j,
            None => {
                return self.complete;
            },
        };
        match extract_cf_event(&parsed) {
            Some(event) => self.apply(&event),
            None => self.complete,
        }
    }

    /// The text accumulated so far.
    pub fn text_so_far(&self) -> (r: String)
        ensures
            r@ == self@.text,
    {
        self.text.clone()
    }

    /// Whether the `[DONE]` sentinel has been seen.
    pub fn is_complete(&self) -> (r: bool)
        ensures
            r == self@.complete,
    {
        self.complete
    }

    /// The final unified response: the accumulated text, the last usage
    /// record restated so that its total is the sum of its parts, and no
    /// thinking trace (Cloudflare has none).
    pub fn finalize(&self) -> (r: StreamResponse)
        ensures
            r.response@ == self@.text,
            r.thinking is None,
            self@.usage matches Some(u) ==> r.usage == Some(
                spec_token_usage(u.prompt_tokens, u.completion_tokens),
            ),
            self@.usage is None ==> r.usage is None,
            r.usage matches Some(t) ==> t.well_formed(),
    {
        let usage = match &self.usage {
            Some(u) => Some(make_token_usage(u.prompt_tokens, u.completion_tokens)),
            None => None,
        };
        StreamResponse { response: self.text.clone(), usage, thinking: None }
    }
}

/// Decodes one parsed data payload into exactly the event
/// [`spec_cf_event_of`] denotes.
fn extract_cf_event(j: &JsonValue) -> (r: Option<CloudflareEvent>)
    ensures
        r == spec_cf_event_of(*j),
{
    let fragment = match j.get_field("response") {
        Some(JsonValue::Text(s)) => s.clone(),
        _ => {
            return None;
        },
    };
    let usage = match j.get_field("usage") {
        Some(u) => match (u.get_field("prompt_tokens"), u.get_field("completion_tokens")) {
            (Some(JsonValue::UInt(p)), Some(JsonValue::UInt(c))) => Some(
                make_token_usage(*p, *c),
            ),
            _ => None,
        },
        None => None,
    };
    Some(CloudflareEvent::Data { response: fragment, usage })
}

} // verus!

